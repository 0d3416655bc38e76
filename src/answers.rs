//! Answers keyed by question id, in the order in which they were recorded.

use vstd::prelude::*;

verus! {

/// The value given for one question.
pub enum AnswerValue {
    /// A free-text or single-select answer.
    Text(String),
    /// The chosen values of a multi-select answer, in order.
    Choices(Vec<String>),
    /// An answer of any other shape, kept as its JSON text.
    Other(String),
}

/// The mathematical value of an [`AnswerValue`].
pub ghost enum AnswerValueView {
    Text(Seq<char>),
    Choices(Seq<Seq<char>>),
    Other(Seq<char>),
}

pub open spec fn strings_view(v: Seq<String>) -> Seq<Seq<char>> {
    v.map_values(|s: String| s@)
}

impl View for AnswerValue {
    type V = AnswerValueView;

    open spec fn view(&self) -> AnswerValueView {
        match self {
            AnswerValue::Text(s) => AnswerValueView::Text(s@),
            AnswerValue::Choices(v) => AnswerValueView::Choices(strings_view(v@)),
            AnswerValue::Other(s) => AnswerValueView::Other(s@),
        }
    }
}

/// One recorded answer.
pub struct Answer {
    pub id: String,
    pub value: AnswerValue,
}

/// The model of an answer map: its entries `(question id, value)` in order.
pub type AnswersView = Seq<(Seq<char>, AnswerValueView)>;

/// No question id occurs twice.
pub open spec fn keys_unique(m: AnswersView) -> bool {
    forall|i: int, j: int|
        0 <= i < m.len() && 0 <= j < m.len() && #[trigger] m[i].0 == #[trigger] m[j].0 ==> i == j
}

/// The value recorded for `k`, if any.
pub open spec fn lookup(m: AnswersView, k: Seq<char>) -> Option<AnswerValueView> {
    if exists|i: int| 0 <= i < m.len() && #[trigger] m[i].0 == k {
        Some(m[choose|i: int| 0 <= i < m.len() && #[trigger] m[i].0 == k].1)
    } else {
        None
    }
}

/// `m` with `v` recorded for `k`: in place where `k` is already there, else at the end.
pub open spec fn with_answer(m: AnswersView, k: Seq<char>, v: AnswerValueView) -> AnswersView {
    if exists|i: int| 0 <= i < m.len() && #[trigger] m[i].0 == k {
        m.update(choose|i: int| 0 <= i < m.len() && #[trigger] m[i].0 == k, (k, v))
    } else {
        m.push((k, v))
    }
}

/// The text recorded for `k`, or `default` where there is none or the value is no text.
pub open spec fn text_or(m: AnswersView, k: Seq<char>, default: Seq<char>) -> Seq<char> {
    match lookup(m, k) {
        Some(AnswerValueView::Text(s)) => s,
        _ => default,
    }
}

/// A map from question id to answer, which keeps the order in which ids were first recorded.
pub struct AnswerMap {
    entries: Vec<Answer>,
}

impl View for AnswerMap {
    type V = AnswersView;

    closed spec fn view(&self) -> AnswersView {
        self.entries@.map_values(|a: Answer| (a.id@, a.value@))
    }
}

impl AnswerMap {
    /// The map's invariant: no question id occurs twice.
    pub open spec fn wf(&self) -> bool {
        keys_unique(self@)
    }

    /// An empty answer map.
    pub fn new() -> (r: AnswerMap)
        ensures
            r.wf(),
            r@ == Seq::<(Seq<char>, AnswerValueView)>::empty(),
    {
        let r = AnswerMap { entries: Vec::new() };
        assert(r@ =~= Seq::<(Seq<char>, AnswerValueView)>::empty());
        r
    }

    /// The number of recorded answers.
    pub fn len(&self) -> (r: usize)
        ensures
            r == self@.len(),
    {
        self.entries.len()
    }

    /// The position of `k` among the entries, if it is there.
    fn position(&self, k: &String) -> (r: Option<usize>)
        ensures
            match r {
                Some(i) => i < self@.len() && self@[i as int].0 == k@,
                None => forall|i: int| 0 <= i < self@.len() ==> #[trigger] self@[i].0 != k@,
            },
    {
        let mut i: usize = 0;
        while i < self.entries.len()
            invariant
                i <= self.entries@.len(),
                self@.len() == self.entries@.len(),
                forall|j: int| 0 <= j < i ==> #[trigger] self@[j].0 != k@,
            decreases self.entries@.len() - i,
        {
            if self.entries[i].id == *k {
                return Some(i);
            }
            i = i + 1;
        }
        None
    }

    /// The value recorded for `key`, if any.
    pub fn get(&self, key: &str) -> (r: Option<&AnswerValue>)
        requires
            self.wf(),
        ensures
            match r {
                Some(v) => lookup(self@, key@) == Some(v@),
                None => lookup(self@, key@) is None,
            },
    {
        let k = String::from_str(key);
        match self.position(&k) {
            Some(i) => {
                assert(self@[i as int].0 == key@);
                Some(&self.entries[i].value)
            },
            None => None,
        }
    }

    /// Records `value` for `id`, replacing an earlier value in its place.
    pub fn insert(&mut self, id: String, value: AnswerValue)
        requires
            old(self).wf(),
        ensures
            final(self).wf(),
            final(self)@ == with_answer(old(self)@, id@, value@),
    {
        let ghost m = self@;
        let ghost k = id@;
        let ghost v = value@;
        match self.position(&id) {
            Some(i) => {
                assert(m[i as int].0 == k);
                self.entries.set(i, Answer { id, value });
                assert(self@ =~= m.update(i as int, (k, v)));
            },
            None => {
                self.entries.push(Answer { id, value });
                assert(self@ =~= m.push((k, v)));
            },
        }
    }

    /// The entries in order, as pairs of id and value.
    pub fn entries(&self) -> (r: &Vec<Answer>)
        ensures
            r@.map_values(|a: Answer| (a.id@, a.value@)) == self@,
    {
        &self.entries
    }
}

/// The text recorded for `key`, or `default` where there is none or the value is no text.
pub fn text_or_default<'a>(answers: &'a AnswerMap, key: &str, default: &'a str) -> (r: &'a str)
    requires
        answers.wf(),
    ensures
        r@ == text_or(answers@, key@, default@),
{
    match answers.get(key) {
        Some(AnswerValue::Text(s)) => s.as_str(),
        _ => default,
    }
}

} // verus!
