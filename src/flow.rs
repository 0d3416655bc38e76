//! The question catalog and the rules that decide which questions are visible.

use vstd::prelude::*;
use crate::answers::{AnswerMap, AnswerValue, AnswerValueView, AnswersView, lookup, strings_view};

verus! {

/// How a question is answered.
#[derive(Debug, Clone, Copy, PartialEq, Eq, Structural)]
pub enum QuestionType {
    Single,
    Multiple,
    Text,
}

/// One choice offered by a select question.
#[derive(Debug, Clone)]
pub struct QuestionOption {
    pub value: String,
    pub label: String,
    pub description: Option<String>,
}

/// A question is relevant only where the answer to `question_id` is one of `values`.
#[derive(Debug, Clone)]
pub struct QuestionCondition {
    pub question_id: String,
    pub values: Vec<String>,
}

/// The definition of one question.
#[derive(Debug, Clone)]
pub struct QuestionTemplate {
    pub id: String,
    pub phase: String,
    pub question: String,
    pub description: Option<String>,
    pub question_type: QuestionType,
    pub options: Vec<QuestionOption>,
    pub allow_other: bool,
    pub required: bool,
    pub condition: Option<QuestionCondition>,
}

/// The mathematical value of a [`QuestionOption`].
pub ghost struct OptionView {
    pub value: Seq<char>,
    pub label: Seq<char>,
    pub description: Option<Seq<char>>,
}

/// The mathematical value of a [`QuestionCondition`].
pub ghost struct ConditionView {
    pub question_id: Seq<char>,
    pub values: Seq<Seq<char>>,
}

/// The mathematical value of a [`QuestionTemplate`].
pub ghost struct QuestionView {
    pub id: Seq<char>,
    pub phase: Seq<char>,
    pub question: Seq<char>,
    pub description: Option<Seq<char>>,
    pub question_type: QuestionType,
    pub options: Seq<OptionView>,
    pub allow_other: bool,
    pub required: bool,
    pub condition: Option<ConditionView>,
}

pub open spec fn opt_string_view(o: Option<String>) -> Option<Seq<char>> {
    match o {
        Some(s) => Some(s@),
        None => None,
    }
}

impl View for QuestionOption {
    type V = OptionView;

    open spec fn view(&self) -> OptionView {
        OptionView {
            value: self.value@,
            label: self.label@,
            description: opt_string_view(self.description),
        }
    }
}

impl View for QuestionCondition {
    type V = ConditionView;

    open spec fn view(&self) -> ConditionView {
        ConditionView { question_id: self.question_id@, values: strings_view(self.values@) }
    }
}

impl View for QuestionTemplate {
    type V = QuestionView;

    open spec fn view(&self) -> QuestionView {
        QuestionView {
            id: self.id@,
            phase: self.phase@,
            question: self.question@,
            description: opt_string_view(self.description),
            question_type: self.question_type,
            options: self.options@.map_values(|o: QuestionOption| o@),
            allow_other: self.allow_other,
            required: self.required,
            condition: match self.condition {
                Some(c) => Some(c@),
                None => None,
            },
        }
    }
}

/// The model of a question flow.
pub open spec fn flow_view(f: Seq<QuestionTemplate>) -> Seq<QuestionView> {
    f.map_values(|q: QuestionTemplate| q@)
}

/// Whether the recorded answers satisfy condition `c`: a text answer must be one of the
/// accepted values, a multi-select answer must hold at least one of them; an unanswered
/// prerequisite, or an answer of another shape, satisfies nothing.
pub open spec fn condition_holds(c: ConditionView, m: AnswersView) -> bool {
    match lookup(m, c.question_id) {
        Some(AnswerValueView::Text(s)) => c.values.contains(s),
        Some(AnswerValueView::Choices(cs)) => exists|i: int|
            0 <= i < cs.len() && c.values.contains(#[trigger] cs[i]),
        _ => false,
    }
}

/// Whether question `q` is visible under the answers `m`.
pub open spec fn visible(q: QuestionView, m: AnswersView) -> bool {
    match q.condition {
        None => true,
        Some(c) => condition_holds(c, m),
    }
}

/// Whether `values` holds `s`.
fn contains_string(values: &Vec<String>, s: &String) -> (r: bool)
    ensures
        r == strings_view(values@).contains(s@),
{
    let mut i: usize = 0;
    while i < values.len()
        invariant
            i <= values@.len(),
            forall|j: int| 0 <= j < i ==> values@[j]@ != s@,
        decreases values@.len() - i,
    {
        if values[i] == *s {
            assert(strings_view(values@)[i as int] == s@);
            return true;
        }
        i = i + 1;
    }
    proof {
        if strings_view(values@).contains(s@) {
            let j = choose|j: int| 0 <= j < values@.len() && strings_view(values@)[j] == s@;
            assert(values@[j]@ == s@);
        }
    }
    false
}

/// A question without a condition is visible whatever the answers; one whose prerequisite
/// is unanswered, or answered with a text outside the accepted values, is not.
pub proof fn lemma_visibility_rules(q: QuestionView, m: AnswersView)
    ensures
        q.condition is None ==> visible(q, m),
        q.condition matches Some(c) && lookup(m, c.question_id) is None ==> !visible(q, m),
        q.condition matches Some(c) && lookup(m, c.question_id) matches Some(
            AnswerValueView::Text(s),
        ) && !c.values.contains(s) ==> !visible(q, m),
        q.condition matches Some(c) && lookup(m, c.question_id) matches Some(
            AnswerValueView::Choices(cs),
        ) && (forall|i: int| 0 <= i < cs.len() ==> !c.values.contains(#[trigger] cs[i]))
            ==> !visible(q, m),
{
}

/// Whether the recorded answers satisfy `condition`.
pub fn condition_satisfied(condition: &QuestionCondition, answers: &AnswerMap) -> (r: bool)
    requires
        answers.wf(),
    ensures
        r == condition_holds(condition@, answers@),
{
    match answers.get(condition.question_id.as_str()) {
        Some(AnswerValue::Text(s)) => contains_string(&condition.values, s),
        Some(AnswerValue::Choices(cs)) => {
            let ghost vs = strings_view(condition.values@);
            let ghost chosen = strings_view(cs@);
            let mut i: usize = 0;
            while i < cs.len()
                invariant
                    i <= cs@.len(),
                    chosen == strings_view(cs@),
                    lookup(answers@, condition.question_id@) == Some(
                        AnswerValueView::Choices(chosen),
                    ),
                    vs == strings_view(condition.values@),
                    forall|j: int| 0 <= j < i ==> !vs.contains(#[trigger] chosen[j]),
                decreases cs@.len() - i,
            {
                if contains_string(&condition.values, &cs[i]) {
                    assert(vs.contains(chosen[i as int]));
                    let ghost l = lookup(answers@, condition@.question_id);
                    assert(l.unwrap()->Choices_0 == chosen);
                    assert(condition_holds(condition@, answers@));
                    return true;
                }
                i = i + 1;
            }
            false
        },
        _ => false,
    }
}

/// Whether `question` is visible under `answers`: a question without a condition always
/// is; one with a condition is where the condition holds.
pub fn is_visible(question: &QuestionTemplate, answers: &AnswerMap) -> (r: bool)
    requires
        answers.wf(),
    ensures
        r == visible(question@, answers@),
{
    match &question.condition {
        None => true,
        Some(c) => condition_satisfied(c, answers),
    }
}

/// The positions of the questions of `flow` that are visible under `answers`, in order.
pub fn visible_questions(flow: &Vec<QuestionTemplate>, answers: &AnswerMap) -> (r: Vec<usize>)
    requires
        answers.wf(),
    ensures
        forall|k: int| 0 <= k < r@.len() ==> #[trigger] r@[k] < flow@.len(),
        forall|k: int| 0 <= k < r@.len() ==> visible(flow@[#[trigger] r@[k] as int]@, answers@),
        forall|k: int, l: int| 0 <= k < l < r@.len() ==> r@[k] < r@[l],
        forall|i: int|
            0 <= i < flow@.len() && visible(#[trigger] flow@[i]@, answers@) ==> r@.contains(
                i as usize,
            ),
{
    let mut r: Vec<usize> = Vec::new();
    let mut i: usize = 0;
    while i < flow.len()
        invariant
            answers.wf(),
            i <= flow@.len(),
            forall|k: int| 0 <= k < r@.len() ==> #[trigger] r@[k] < i,
            forall|k: int|
                0 <= k < r@.len() ==> visible(flow@[#[trigger] r@[k] as int]@, answers@),
            forall|k: int, l: int| 0 <= k < l < r@.len() ==> r@[k] < r@[l],
            forall|j: int|
                0 <= j < i && visible(#[trigger] flow@[j]@, answers@) ==> r@.contains(j as usize),
        decreases flow@.len() - i,
    {
        if is_visible(&flow[i], answers) {
            let ghost old_r = r@;
            r.push(i);
            proof {
                assert forall|j: int|
                    0 <= j < i + 1 && visible(#[trigger] flow@[j]@, answers@) implies r@.contains(
                    j as usize,
                ) by {
                    if j < i {
                        let k = choose|k: int| 0 <= k < old_r.len() && old_r[k] == j as usize;
                        assert(r@[k] == j as usize);
                    } else {
                        assert(r@[old_r.len() as int] == j as usize);
                    }
                }
            }
        }
        i = i + 1;
    }
    r
}

/// Question `i` has an id that no earlier question has.
pub open spec fn id_is_new(f: Seq<QuestionView>, i: int) -> bool {
    forall|j: int| 0 <= j < i ==> #[trigger] f[j].id != f[i].id
}

/// The condition of question `i`, if any, refers to an earlier question.
pub open spec fn dependency_is_earlier(f: Seq<QuestionView>, i: int) -> bool {
    match f[i].condition {
        None => true,
        Some(c) => exists|j: int| 0 <= j < i && #[trigger] f[j].id == c.question_id,
    }
}

/// Question `i` is sound within the flow.
pub open spec fn question_sound(f: Seq<QuestionView>, i: int) -> bool {
    id_is_new(f, i) && dependency_is_earlier(f, i)
}

/// A well-formed flow: ids are unique and each condition refers to an earlier question,
/// so that dependencies form no cycle.
pub open spec fn flow_wf(f: Seq<QuestionView>) -> bool {
    forall|i: int| 0 <= i < f.len() ==> #[trigger] question_sound(f, i)
}

/// A defect in a question flow, at the position of the first unsound question.
#[derive(Debug, Clone, Copy, PartialEq, Eq, Structural)]
pub enum FlowError {
    /// The question repeats the id of an earlier question.
    DuplicateId(usize),
    /// The question's condition refers to no earlier question.
    UnknownDependency(usize),
}

/// The position of the first of `flow[0..end]` whose id is `id`, if any.
fn find_before(flow: &Vec<QuestionTemplate>, id: &String, end: usize) -> (r: Option<usize>)
    requires
        end <= flow@.len(),
    ensures
        match r {
            Some(j) => j < end && flow@[j as int]@.id == id@,
            None => forall|j: int| 0 <= j < end ==> #[trigger] flow@[j]@.id != id@,
        },
{
    let mut j: usize = 0;
    while j < end
        invariant
            j <= end <= flow@.len(),
            forall|k: int| 0 <= k < j ==> #[trigger] flow@[k]@.id != id@,
        decreases end - j,
    {
        if flow[j].id == *id {
            return Some(j);
        }
        j = j + 1;
    }
    None
}

/// Checks that `flow` is well formed; fails at the first question that is not sound.
pub fn check_flow(flow: &Vec<QuestionTemplate>) -> (r: Result<(), FlowError>)
    ensures
        r is Ok <==> flow_wf(flow_view(flow@)),
        r matches Err(FlowError::DuplicateId(i)) ==> i < flow@.len() && !id_is_new(
            flow_view(flow@),
            i as int,
        ) && forall|j: int| 0 <= j < i ==> #[trigger] question_sound(flow_view(flow@), j),
        r matches Err(FlowError::UnknownDependency(i)) ==> i < flow@.len() && id_is_new(
            flow_view(flow@),
            i as int,
        ) && !dependency_is_earlier(flow_view(flow@), i as int) && forall|j: int|
            0 <= j < i ==> #[trigger] question_sound(flow_view(flow@), j),
{
    let ghost f = flow_view(flow@);
    let mut i: usize = 0;
    while i < flow.len()
        invariant
            i <= flow@.len(),
            f == flow_view(flow@),
            forall|j: int| 0 <= j < i ==> #[trigger] question_sound(f, j),
        decreases flow@.len() - i,
    {
        if let Some(j) = find_before(flow, &flow[i].id, i) {
            assert(f[j as int].id == f[i as int].id);
            assert(!question_sound(f, i as int));
            return Err(FlowError::DuplicateId(i));
        }
        assert(id_is_new(f, i as int));
        match &flow[i].condition {
            None => {},
            Some(c) => {
                match find_before(flow, &c.question_id, i) {
                    Some(j) => {
                        assert(f[j as int].id == c.question_id@);
                    },
                    None => {
                        assert(!dependency_is_earlier(f, i as int));
                        assert(!question_sound(f, i as int));
                        return Err(FlowError::UnknownDependency(i));
                    },
                }
            },
        }
        assert(question_sound(f, i as int));
        i = i + 1;
    }
    Ok(())
}

} // verus!
