//! Rendering answers into the task prompt.

use vstd::prelude::*;
use crate::answers::{AnswerMap, AnswersView, lookup, text_or, text_or_default};

verus! {

/// The description of a task type; an unknown type stands as it is.
pub open spec fn task_type_description(t: Seq<char>) -> Seq<char> {
    if t == "greenfield"@ {
        "从零构建一个新项目"@
    } else if t == "feature"@ {
        "给现有项目添加新功能"@
    } else if t == "refactor"@ {
        "重构和优化现有代码"@
    } else if t == "bugfix"@ {
        "修复 Bug 或让测试通过"@
    } else {
        t
    }
}

/// The description of a test requirement; an unknown requirement stands as it is.
pub open spec fn test_requirement_description(t: Seq<char>) -> Seq<char> {
    if t == "full"@ {
        "完整测试覆盖（单元测试 + 集成测试，覆盖率 > 80%）"@
    } else if t == "basic"@ {
        "基础测试（核心功能有测试即可）"@
    } else if t == "none"@ {
        "不需要测试"@
    } else {
        t
    }
}

/// `heading` and `body` followed by a line break, or nothing where `body` is empty.
pub open spec fn optional_section(heading: Seq<char>, body: Seq<char>) -> Seq<char> {
    if body.len() == 0 {
        Seq::empty()
    } else {
        heading + body + "\n"@
    }
}

/// The opening: the task description and the task type.
pub open spec fn intro_section(m: AnswersView) -> Seq<char> {
    "你正在进行一个 Ralph Loop 任务。请仔细阅读以下要求，然后开始工作。\n\n## 任务描述\n\n"@
        + text_or(m, "project_description"@, ""@) + "\n\n## 任务类型\n\n"@
        + task_type_description(text_or(m, "task_type"@, "unknown"@)) + "\n"@
}

pub open spec fn tech_stack_heading() -> Seq<char> {
    "\n## 技术栈\n\n"@
}

pub open spec fn existing_code_heading() -> Seq<char> {
    "\n## 现有代码信息\n\n"@
}

pub open spec fn additional_heading() -> Seq<char> {
    "\n## 其他要求\n\n"@
}

pub open spec fn tech_stack_section(m: AnswersView) -> Seq<char> {
    optional_section(tech_stack_heading(), text_or(m, "tech_stack"@, ""@))
}

pub open spec fn existing_code_section(m: AnswersView) -> Seq<char> {
    optional_section(existing_code_heading(), text_or(m, "existing_code_info"@, ""@))
}

/// The test requirement, which defaults to basic testing.
pub open spec fn test_section(m: AnswersView) -> Seq<char> {
    "\n## 测试要求\n\n"@ + test_requirement_description(text_or(m, "test_requirement"@, "basic"@))
        + "\n"@
}

pub open spec fn additional_section(m: AnswersView) -> Seq<char> {
    optional_section(additional_heading(), text_or(m, "additional_requirements"@, ""@))
}

/// The fixed closing: the completion marker and the working procedure.
pub open spec fn closing_section() -> Seq<char> {
    "\n## 完成标准\n\n当你完成所有上述要求后，请输出以下内容表示任务完成：\n\n<done>COMPLETE</done>\n\n## 工作方式\n\n1. 先分析当前代码状态（如果有）\n2. 制定实施计划\n3. 逐步实现，每完成一步就运行测试（如果有）\n4. 遇到错误时，分析原因并修复\n5. 全部完成后，输出完成信号\n\n开始工作吧！\n"@
}

/// The sections of the prompt, in order; an omitted section is empty.
pub open spec fn prompt_sections(m: AnswersView) -> Seq<Seq<char>> {
    seq![
        intro_section(m),
        tech_stack_section(m),
        existing_code_section(m),
        test_section(m),
        additional_section(m),
        closing_section(),
    ]
}

/// The prompt for the answers `m`.
pub open spec fn prompt_text(m: AnswersView) -> Seq<char> {
    intro_section(m) + tech_stack_section(m) + existing_code_section(m) + test_section(m)
        + additional_section(m) + closing_section()
}

/// The description of `task_type`.
pub fn describe_task_type(task_type: &str) -> (r: String)
    ensures
        r@ == task_type_description(task_type@),
{
    let t = String::from_str(task_type);
    if t == String::from_str("greenfield") {
        String::from_str("从零构建一个新项目")
    } else if t == String::from_str("feature") {
        String::from_str("给现有项目添加新功能")
    } else if t == String::from_str("refactor") {
        String::from_str("重构和优化现有代码")
    } else if t == String::from_str("bugfix") {
        String::from_str("修复 Bug 或让测试通过")
    } else {
        t
    }
}

/// The description of `test_requirement`.
pub fn describe_test_requirement(test_requirement: &str) -> (r: String)
    ensures
        r@ == test_requirement_description(test_requirement@),
{
    let t = String::from_str(test_requirement);
    if t == String::from_str("full") {
        String::from_str("完整测试覆盖（单元测试 + 集成测试，覆盖率 > 80%）")
    } else if t == String::from_str("basic") {
        String::from_str("基础测试（核心功能有测试即可）")
    } else if t == String::from_str("none") {
        String::from_str("不需要测试")
    } else {
        t
    }
}

/// `heading` and `body` followed by a line break, or nothing where `body` is empty.
fn optional(heading: &str, body: &str) -> (r: String)
    ensures
        r@ == optional_section(heading@, body@),
{
    if body.is_empty() {
        let r = String::new();
        assert(r@ =~= Seq::<char>::empty());
        r
    } else {
        let mut r = String::from_str(heading);
        r.append(body);
        r.append("\n");
        r
    }
}

/// Renders the answers into the prompt for the agent that is to carry out the task.
pub fn generate_prompt(answers: &AnswerMap) -> (r: String)
    requires
        answers.wf(),
    ensures
        r@ == prompt_text(answers@),
{
    let task_type = text_or_default(answers, "task_type", "unknown");
    let description = text_or_default(answers, "project_description", "");
    let tech_stack = text_or_default(answers, "tech_stack", "");
    let existing = text_or_default(answers, "existing_code_info", "");
    let test_requirement = text_or_default(answers, "test_requirement", "basic");
    let additional = text_or_default(answers, "additional_requirements", "");
    let mut r = String::from_str(
        "你正在进行一个 Ralph Loop 任务。请仔细阅读以下要求，然后开始工作。\n\n## 任务描述\n\n",
    );
    r.append(description);
    r.append("\n\n## 任务类型\n\n");
    r.append(describe_task_type(task_type).as_str());
    r.append("\n");
    r.append(optional("\n## 技术栈\n\n", tech_stack).as_str());
    r.append(optional("\n## 现有代码信息\n\n", existing).as_str());
    r.append("\n## 测试要求\n\n");
    r.append(describe_test_requirement(test_requirement).as_str());
    r.append("\n");
    r.append(optional("\n## 其他要求\n\n", additional).as_str());
    r.append(
        "\n## 完成标准\n\n当你完成所有上述要求后，请输出以下内容表示任务完成：\n\n<done>COMPLETE</done>\n\n## 工作方式\n\n1. 先分析当前代码状态（如果有）\n2. 制定实施计划\n3. 逐步实现，每完成一步就运行测试（如果有）\n4. 遇到错误时，分析原因并修复\n5. 全部完成后，输出完成信号\n\n开始工作吧！\n",
    );
    assert(r@ =~= prompt_text(answers@));
    r
}

/// The prompt is a function of the recorded answers alone: two maps that record the same
/// value for every question id, in whatever order, give the same prompt.
pub proof fn lemma_prompt_deterministic(a: AnswersView, b: AnswersView)
    requires
        forall|k: Seq<char>| #[trigger] lookup(a, k) == lookup(b, k),
    ensures
        prompt_text(a) == prompt_text(b),
{
    assert(lookup(a, "task_type"@) == lookup(b, "task_type"@));
    assert(lookup(a, "project_description"@) == lookup(b, "project_description"@));
    assert(lookup(a, "tech_stack"@) == lookup(b, "tech_stack"@));
    assert(lookup(a, "existing_code_info"@) == lookup(b, "existing_code_info"@));
    assert(lookup(a, "test_requirement"@) == lookup(b, "test_requirement"@));
    assert(lookup(a, "additional_requirements"@) == lookup(b, "additional_requirements"@));
}

/// The answers whose sections the prompt leaves out when they are empty.
pub open spec fn is_optional_key(k: Seq<char>) -> bool {
    k == "tech_stack"@ || k == "existing_code_info"@ || k == "additional_requirements"@
}

/// The position, among the prompt's sections, of the section of an optional answer.
pub open spec fn section_index(k: Seq<char>) -> int {
    if k == "tech_stack"@ {
        1
    } else if k == "existing_code_info"@ {
        2
    } else {
        4
    }
}

/// The heading of the section of an optional answer.
pub open spec fn optional_heading(k: Seq<char>) -> Seq<char> {
    if k == "tech_stack"@ {
        tech_stack_heading()
    } else if k == "existing_code_info"@ {
        existing_code_heading()
    } else {
        additional_heading()
    }
}

/// Omitting an optional answer (tech stack, existing code, further requirements), whether
/// it is absent or empty, removes exactly its section from the prompt and leaves every
/// other section as it was.
pub proof fn lemma_omitting_optional_answer(a: AnswersView, b: AnswersView, k: Seq<char>)
    requires
        is_optional_key(k),
        forall|j: Seq<char>| j != k ==> #[trigger] lookup(a, j) == lookup(b, j),
        text_or(b, k, ""@).len() == 0,
    ensures
        prompt_sections(b) == prompt_sections(a).update(section_index(k), Seq::empty()),
        prompt_sections(a)[section_index(k)] == optional_section(
            optional_heading(k),
            text_or(a, k, ""@),
        ),
        text_or(a, k, ""@).len() == 0 ==> prompt_text(a) == prompt_text(b),
        exists|i: int|
            0 <= i <= prompt_text(b).len() && prompt_text(a) == prompt_text(b).take(i)
                + prompt_sections(a)[section_index(k)] + prompt_text(b).skip(i),
{
    reveal_strlit("task_type");
    reveal_strlit("project_description");
    reveal_strlit("tech_stack");
    reveal_strlit("existing_code_info");
    reveal_strlit("test_requirement");
    reveal_strlit("additional_requirements");
    assert("task_type"@.len() == 9 && "project_description"@.len() == 19);
    assert("tech_stack"@.len() == 10 && "existing_code_info"@.len() == 18);
    assert("test_requirement"@.len() == 16 && "additional_requirements"@.len() == 23);
    assert(lookup(a, "task_type"@) == lookup(b, "task_type"@));
    assert(lookup(a, "project_description"@) == lookup(b, "project_description"@));
    assert(lookup(a, "test_requirement"@) == lookup(b, "test_requirement"@));
    if k != "tech_stack"@ {
        assert(lookup(a, "tech_stack"@) == lookup(b, "tech_stack"@));
    }
    if k != "existing_code_info"@ {
        assert(lookup(a, "existing_code_info"@) == lookup(b, "existing_code_info"@));
    }
    if k != "additional_requirements"@ {
        assert(lookup(a, "additional_requirements"@) == lookup(b, "additional_requirements"@));
    }
    assert(prompt_sections(b) =~= prompt_sections(a).update(section_index(k), Seq::empty()));
    lemma_prompt_is_its_sections(a);
    lemma_prompt_is_its_sections(b);
    lemma_section_inserted(prompt_sections(a), section_index(k));
}

/// The six sections one after another.
pub open spec fn join_sections(s: Seq<Seq<char>>) -> Seq<char> {
    s[0] + s[1] + s[2] + s[3] + s[4] + s[5]
}

/// Joining six sections with one of them emptied, and putting that section back at its
/// place, gives the joined sections.
proof fn lemma_section_inserted(s: Seq<Seq<char>>, idx: int)
    requires
        s.len() == 6,
        idx == 1 || idx == 2 || idx == 4,
    ensures
        exists|i: int|
            0 <= i <= join_sections(s.update(idx, Seq::empty())).len() && join_sections(s)
                == join_sections(s.update(idx, Seq::empty())).take(i) + s[idx] + join_sections(
                s.update(idx, Seq::empty()),
            ).skip(i),
{
    let t = s.update(idx, Seq::empty());
    let before = if idx == 1 {
        s[0]
    } else if idx == 2 {
        s[0] + s[1]
    } else {
        s[0] + s[1] + s[2] + s[3]
    };
    let i = before.len() as int;
    assert(join_sections(t).take(i) =~= before);
    assert(join_sections(s) =~= join_sections(t).take(i) + s[idx] + join_sections(t).skip(i));
}

/// The prompt is its sections in order.
pub proof fn lemma_prompt_is_its_sections(m: AnswersView)
    ensures
        prompt_text(m) == join_sections(prompt_sections(m)),
{
}

} // verus!
