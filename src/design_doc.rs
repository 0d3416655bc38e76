//! Rendering answers into the markdown design document.

use vstd::prelude::*;
use crate::answers::{
    Answer, AnswerMap, AnswerValue, AnswerValueView, AnswersView, keys_unique, lookup,
    strings_view, text_or, text_or_default,
};

verus! {

/// `parts` joined with `sep` between each two.
pub open spec fn join(parts: Seq<Seq<char>>, sep: Seq<char>) -> Seq<char>
    decreases parts.len(),
{
    if parts.len() == 0 {
        Seq::empty()
    } else if parts.len() == 1 {
        parts[0]
    } else {
        join(parts.drop_last(), sep) + sep + parts.last()
    }
}

/// `parts` one after another.
pub open spec fn concat(parts: Seq<Seq<char>>) -> Seq<char>
    decreases parts.len(),
{
    if parts.len() == 0 {
        Seq::empty()
    } else {
        concat(parts.drop_last()) + parts.last()
    }
}

/// How an answer reads in the table: a text as it is, choices joined by commas in their
/// order, any other value as its JSON text.
pub open spec fn value_text(v: AnswerValueView) -> Seq<char> {
    match v {
        AnswerValueView::Text(s) => s,
        AnswerValueView::Choices(cs) => join(cs, ", "@),
        AnswerValueView::Other(s) => s,
    }
}

/// The table row of the answer `v` to question `k`.
pub open spec fn table_row(k: Seq<char>, v: AnswerValueView) -> Seq<char> {
    "| "@ + k + " | "@ + value_text(v) + " |\n"@
}

/// One row for each recorded answer, in the order of the map.
pub open spec fn table_rows(m: AnswersView) -> Seq<Seq<char>> {
    m.map_values(|e: (Seq<char>, AnswerValueView)| table_row(e.0, e.1))
}

/// The task type as the document names it.
pub open spec fn doc_task_type(m: AnswersView) -> Seq<char> {
    text_or(m, "task_type"@, "task"@)
}

/// The tech stack, or a placeholder where none is given.
pub open spec fn doc_tech_stack(m: AnswersView) -> Seq<char> {
    let t = text_or(m, "tech_stack"@, ""@);
    if t.len() == 0 {
        "未指定"@
    } else {
        t
    }
}

/// The line of further requirements, or nothing where there are none.
pub open spec fn additional_line(m: AnswersView) -> Seq<char> {
    let t = text_or(m, "additional_requirements"@, ""@);
    if t.len() == 0 {
        Seq::empty()
    } else {
        "- 其他要求: "@ + t
    }
}

/// The fixed list of completion criteria, ending with the completion marker.
pub open spec fn checklist() -> Seq<char> {
    "\n\n## 完成标准\n\n任务完成的标准：\n- [ ] 实现所有描述的功能\n- [ ] 代码能够正常运行\n- [ ] 满足测试要求\n- [ ] 输出完成信号 `<done>COMPLETE</done>`\n\n## 生成的 Prompt\n\n```\n"@
}

/// The design document of project `name` for the answers `m`, generated at `generated_at`,
/// with `prompt` embedded.
pub open spec fn doc_text(
    name: Seq<char>,
    m: AnswersView,
    prompt: Seq<char>,
    generated_at: Seq<char>,
) -> Seq<char> {
    "# "@ + name + " 设计文档\n\n> 生成时间: "@ + generated_at
        + "\n> 由 Ralph Desktop Brainstorm 生成\n\n## 概述\n\n"@ + text_or(
        m,
        "project_description"@,
        ""@,
    ) + "\n\n## 需求分析\n\n### 用户回答摘要\n\n| 问题 | 回答 |\n|------|------|\n"@ + concat(
        table_rows(m),
    ) + "\n\n### 功能需求\n\n- 任务类型: "@ + doc_task_type(m) + "\n- 技术栈: "@
        + doc_tech_stack(m) + "\n- 测试要求: "@ + text_or(m, "test_requirement"@, "basic"@)
        + "\n"@ + additional_line(m) + checklist() + prompt
        + "\n```\n\n---\n\n*此文档由 Ralph Desktop 自动生成，可手动编辑。*\n"@
}

/// The file name of the design document written on `date`.
pub open spec fn doc_file_name(date: Seq<char>, m: AnswersView) -> Seq<char> {
    date + "-"@ + doc_task_type(m) + "-design.md"@
}

/// When a document was generated: the date, and the date with the time of day.
pub struct GenerationTime {
    pub date: String,
    pub date_time: String,
}

/// A rendered design document.
pub struct DesignDoc {
    pub generated_at: GenerationTime,
    /// The file name, under the project's plans directory.
    pub file_name: String,
    pub content: String,
}

/// The shape that every generation time has: the date, a space, the eight characters of
/// the time of day, and " UTC".
pub open spec fn time_texts_agree(t: GenerationTime) -> bool {
    &&& t.date_time@.len() == t.date@.len() + 13
    &&& t.date_time@ == t.date@ + " "@ + t.date_time@.subrange(
        t.date@.len() as int + 1,
        t.date@.len() as int + 9,
    ) + " UTC"@
}

/// Relies on std's `SystemTime::elapsed`, applied to `UNIX_EPOCH`: the whole seconds and the
/// nanoseconds under a second since the epoch, or `None` where the clock reads earlier.
#[verifier::external_body]
fn time_since_epoch() -> (r: Option<(u64, u32)>)
    ensures
        r matches Some((_, nanos)) ==> nanos < 1_000_000_000,
{
    match std::time::UNIX_EPOCH.elapsed() {
        Ok(d) => Some((d.as_secs(), d.subsec_nanos())),
        Err(_) => None,
    }
}

/// Relies on chrono's `DateTime::<Utc>::from_timestamp`, which gives `None` for a time out of
/// its range, and `DateTime::format`: both texts are written from the same instant, the
/// date as `%Y-%m-%d` and the date and time as `%Y-%m-%d %H:%M:%S UTC`, where hours,
/// minutes and seconds take two digits each.
#[verifier::external_body]
fn utc_time_texts(secs: i64, nanos: u32) -> (r: Option<GenerationTime>)
    ensures
        r matches Some(t) ==> time_texts_agree(t),
{
    match chrono::DateTime::from_timestamp(secs, nanos) {
        Some(t) => Some(
            GenerationTime {
                date: t.format("%Y-%m-%d").to_string(),
                date_time: t.format("%Y-%m-%d %H:%M:%S UTC").to_string(),
            },
        ),
        None => None,
    }
}

/// The generation time as of now, in UTC; `None` where the clock reads before the Unix
/// epoch or beyond the dates that can be written.
pub fn generation_time_now() -> (r: Option<GenerationTime>)
    ensures
        r matches Some(t) ==> time_texts_agree(t),
{
    match time_since_epoch() {
        Some((secs, nanos)) => {
            if secs <= i64::MAX as u64 {
                utc_time_texts(secs as i64, nanos)
            } else {
                None
            }
        },
        None => None,
    }
}

/// The directory, under the project, that holds design documents.
pub fn design_doc_dir() -> (r: Vec<String>)
    ensures
        strings_view(r@) == seq!["docs"@, "plans"@],
{
    let r = vec![String::from_str("docs"), String::from_str("plans")];
    assert(strings_view(r@) =~= seq!["docs"@, "plans"@]);
    r
}

/// `parts` joined with `sep`.
pub fn join_strings(parts: &Vec<String>, sep: &str) -> (r: String)
    ensures
        r@ == join(strings_view(parts@), sep@),
{
    let ghost ps = strings_view(parts@);
    let mut r = String::new();
    let mut i: usize = 0;
    assert(ps.take(0) =~= Seq::<Seq<char>>::empty());
    assert(r@ =~= join(ps.take(0), sep@));
    while i < parts.len()
        invariant
            i <= parts@.len(),
            ps == strings_view(parts@),
            r@ == join(ps.take(i as int), sep@),
        decreases parts@.len() - i,
    {
        assert(ps.take(i + 1).drop_last() =~= ps.take(i as int));
        if i == 0 {
            r.append(parts[i].as_str());
            assert(r@ =~= ps[0]);
        } else {
            r.append(sep);
            r.append(parts[i].as_str());
        }
        i = i + 1;
    }
    assert(ps.take(parts@.len() as int) =~= ps);
    r
}

/// How `value` reads in the answers table.
pub fn value_text_of(value: &AnswerValue) -> (r: String)
    ensures
        r@ == value_text(value@),
{
    match value {
        AnswerValue::Text(s) => s.clone(),
        AnswerValue::Choices(cs) => join_strings(cs, ", "),
        AnswerValue::Other(s) => s.clone(),
    }
}

/// The answers table: one row for each recorded answer, in the order of the map.
pub fn answers_table(answers: &AnswerMap) -> (r: String)
    ensures
        r@ == concat(table_rows(answers@)),
{
    let entries: &Vec<Answer> = answers.entries();
    let ghost rows = table_rows(answers@);
    let mut r = String::new();
    let mut i: usize = 0;
    assert(r@ =~= concat(rows.take(0)));
    while i < entries.len()
        invariant
            i <= entries@.len(),
            entries@.map_values(|a: Answer| (a.id@, a.value@)) == answers@,
            rows == table_rows(answers@),
            r@ == concat(rows.take(i as int)),
        decreases entries@.len() - i,
    {
        assert(rows.take(i + 1).drop_last() =~= rows.take(i as int));
        r.append("| ");
        r.append(entries[i].id.as_str());
        r.append(" | ");
        r.append(value_text_of(&entries[i].value).as_str());
        r.append(" |\n");
        i = i + 1;
    }
    assert(rows.take(entries@.len() as int) =~= rows);
    r
}

/// Renders the design document of project `project_name`, with `prompt` embedded, as
/// generated at `generated_at`.
pub fn render_design_doc(
    project_name: &str,
    answers: &AnswerMap,
    prompt: &str,
    generated_at: GenerationTime,
) -> (r: DesignDoc)
    requires
        answers.wf(),
    ensures
        r.generated_at == generated_at,
        r.file_name@ == doc_file_name(generated_at.date@, answers@),
        r.content@ == doc_text(project_name@, answers@, prompt@, generated_at.date_time@),
{
    let task_type = text_or_default(answers, "task_type", "task");
    let description = text_or_default(answers, "project_description", "");
    let tech_stack = text_or_default(answers, "tech_stack", "");
    let test_requirement = text_or_default(answers, "test_requirement", "basic");
    let additional = text_or_default(answers, "additional_requirements", "");
    let mut c = String::from_str("# ");
    c.append(project_name);
    c.append(" 设计文档\n\n> 生成时间: ");
    c.append(generated_at.date_time.as_str());
    c.append("\n> 由 Ralph Desktop Brainstorm 生成\n\n## 概述\n\n");
    c.append(description);
    c.append("\n\n## 需求分析\n\n### 用户回答摘要\n\n| 问题 | 回答 |\n|------|------|\n");
    c.append(answers_table(answers).as_str());
    c.append("\n\n### 功能需求\n\n- 任务类型: ");
    c.append(task_type);
    c.append("\n- 技术栈: ");
    if tech_stack.is_empty() {
        c.append("未指定");
    } else {
        c.append(tech_stack);
    }
    c.append("\n- 测试要求: ");
    c.append(test_requirement);
    c.append("\n");
    let ghost before_line = c@;
    if !additional.is_empty() {
        c.append("- 其他要求: ");
        c.append(additional);
    }
    assert(c@ =~= before_line + additional_line(answers@));
    c.append(
        "\n\n## 完成标准\n\n任务完成的标准：\n- [ ] 实现所有描述的功能\n- [ ] 代码能够正常运行\n- [ ] 满足测试要求\n- [ ] 输出完成信号 `<done>COMPLETE</done>`\n\n## 生成的 Prompt\n\n```\n",
    );
    c.append(prompt);
    c.append("\n```\n\n---\n\n*此文档由 Ralph Desktop 自动生成，可手动编辑。*\n");
    assert(c@ =~= doc_text(project_name@, answers@, prompt@, generated_at.date_time@));
    let mut file_name = generated_at.date.clone();
    file_name.append("-");
    file_name.append(task_type);
    file_name.append("-design.md");
    DesignDoc { generated_at, file_name, content: c }
}

/// Renders the design document as of now (see [`render_design_doc`]); `None` where the
/// clock cannot be read as a date.
pub fn prepare_design_doc(project_name: &str, answers: &AnswerMap, prompt: &str) -> (r: Option<
    DesignDoc,
>)
    requires
        answers.wf(),
    ensures
        r matches Some(d) ==> {
            &&& time_texts_agree(d.generated_at)
            &&& d.file_name@ == doc_file_name(d.generated_at.date@, answers@)
            &&& d.content@ == doc_text(project_name@, answers@, prompt@, d.generated_at.date_time@)
        },
{
    match generation_time_now() {
        Some(now) => Some(render_design_doc(project_name, answers, prompt, now)),
        None => None,
    }
}

/// Each question id recorded in the answers has exactly one row in the answers table, at
/// the position of its entry, and that row shows its value, a multi-select answer as its
/// choices joined by commas in their order.
pub proof fn lemma_one_row_per_answer(m: AnswersView, k: Seq<char>)
    requires
        keys_unique(m),
        lookup(m, k) is Some,
    ensures
        table_rows(m).len() == m.len(),
        exists|i: int|
            0 <= i < m.len() && m[i].0 == k && #[trigger] table_rows(m)[i] == table_row(
                k,
                lookup(m, k).unwrap(),
            ) && forall|j: int| 0 <= j < m.len() && j != i ==> #[trigger] m[j].0 != k,
        forall|cs: Seq<Seq<char>>|
            lookup(m, k) == Some(AnswerValueView::Choices(cs)) ==> value_text(
                lookup(m, k).unwrap(),
            ) == join(cs, ", "@),
{
    let i = choose|i: int| 0 <= i < m.len() && #[trigger] m[i].0 == k;
    assert(table_rows(m)[i] == table_row(k, lookup(m, k).unwrap()));
}

} // verus!
