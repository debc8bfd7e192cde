//! The raw shape of a declarative script, as read from its TOML source.
use vstd::prelude::*;

use crate::text::chars_of;

verus! {

/// The value of a step field, reduced to what validation reads of it:
/// a string, an array of values, or any other kind of value.
#[derive(Debug, PartialEq)]
pub enum FieldValue {
    Str(String),
    Array(Vec<FieldValue>),
    Other,
}

/// One step of a script: its name, its type and its remaining fields,
/// keyed by field name. As a sorted map holds them, the keys are distinct
/// and ascending (`wf`); `Step::new` admits only such fields.
#[derive(Debug, PartialEq)]
pub struct Step {
    pub name: String,
    pub step_type: String,
    pub fields: Vec<(String, FieldValue)>,
}

/// A declarative script: a name, an optional description and its steps in order.
#[derive(Debug, PartialEq)]
pub struct Script {
    pub name: String,
    pub description: Option<String>,
    pub steps: Vec<Step>,
}

/// The value stored under `key`: the first entry whose name is `key`.
pub open spec fn field_lookup(fields: Seq<(String, FieldValue)>, key: Seq<char>) -> Option<FieldValue>
    decreases fields.len(),
{
    if fields.len() == 0 {
        None
    } else if fields[0].0@ == key {
        Some(fields[0].1)
    } else {
        field_lookup(fields.drop_first(), key)
    }
}

/// Whether the text `a` sorts strictly before `b`: at the first character
/// where they differ, `a`'s has the lower code point, or `a` is a proper
/// prefix of `b`. This is the order of `String`'s `Ord`, since UTF-8 keeps
/// the order of code points.
pub open spec fn text_lt(a: Seq<char>, b: Seq<char>) -> bool
    decreases a.len(),
{
    if a.len() == 0 {
        b.len() > 0
    } else if b.len() == 0 {
        false
    } else if a[0] != b[0] {
        a[0] < b[0]
    } else {
        text_lt(a.drop_first(), b.drop_first())
    }
}

/// Whether field names are strictly ascending, hence distinct.
pub open spec fn fields_ascending(fields: Seq<(String, FieldValue)>) -> bool {
    forall|i: int, j: int| 0 <= i < j < fields.len() ==> text_lt((#[trigger] fields[i]).0@, (#[trigger] fields[j]).0@)
}

/// No text sorts before itself.
proof fn lemma_text_lt_irreflexive(a: Seq<char>)
    ensures
        !text_lt(a, a),
    decreases a.len(),
{
    if a.len() > 0 {
        lemma_text_lt_irreflexive(a.drop_first());
    }
}

/// In a well-formed step no two fields share a name.
pub proof fn lemma_wf_fields_distinct(step: Step)
    requires
        step.wf(),
    ensures
        forall|i: int, j: int|
            0 <= i < j < step.fields@.len() ==> (#[trigger] step.fields@[i]).0@ != (#[trigger] step.fields@[j]).0@,
{
    assert forall|i: int, j: int| 0 <= i < j < step.fields@.len() implies (#[trigger] step.fields@[i]).0@
        != (#[trigger] step.fields@[j]).0@ by {
        lemma_text_lt_irreflexive(step.fields@[i].0@);
    }
}

impl Step {
    /// Whether the step's field names are strictly ascending.
    pub open spec fn wf(&self) -> bool {
        fields_ascending(self.fields@)
    }

    /// A step with the given name, type and fields, provided the field names
    /// are strictly ascending, as a sorted map yields them; `None` otherwise.
    pub fn new(name: String, step_type: String, fields: Vec<(String, FieldValue)>) -> (r: Option<Step>)
        ensures
            r is Some <==> fields_ascending(fields@),
            r matches Some(s) ==> s.name == name && s.step_type == step_type && s.fields == fields && s.wf(),
    {
        let n = fields.len();
        let mut i: usize = 0;
        while i < n
            invariant
                n == fields@.len(),
                i <= n,
                forall|a: int, b: int| 0 <= a < b < n && a < i ==> text_lt((#[trigger] fields@[a]).0@, (#[trigger] fields@[b]).0@),
            decreases n - i,
        {
            let mut j: usize = i + 1;
            while j < n
                invariant
                    n == fields@.len(),
                    i < n,
                    i + 1 <= j <= n,
                    forall|a: int, b: int| 0 <= a < b < n && a < i ==> text_lt((#[trigger] fields@[a]).0@, (#[trigger] fields@[b]).0@),
                    forall|b: int| i < b < j ==> text_lt(fields@[i as int].0@, (#[trigger] fields@[b]).0@),
                decreases n - j,
            {
                if !text_less(fields[i].0.as_str(), fields[j].0.as_str()) {
                    return None;
                }
                j = j + 1;
            }
            i = i + 1;
        }
        Some(Step { name, step_type, fields })
    }
}

/// Whether `a` sorts strictly before `b`, as `text_lt` orders texts.
pub fn text_less(a: &str, b: &str) -> (r: bool)
    ensures
        r == text_lt(a@, b@),
{
    let ca = chars_of(a);
    let cb = chars_of(b);
    let mut i: usize = 0;
    assert(a@.skip(0) =~= a@);
    assert(b@.skip(0) =~= b@);
    while i < ca.len() && i < cb.len() && ca[i] == cb[i]
        invariant
            ca@ == a@,
            cb@ == b@,
            i <= ca@.len(),
            i <= cb@.len(),
            text_lt(a@, b@) == text_lt(a@.skip(i as int), b@.skip(i as int)),
        decreases ca@.len() - i,
    {
        let ghost sa = a@.skip(i as int);
        let ghost sb = b@.skip(i as int);
        assert(sa.drop_first() =~= a@.skip(i + 1));
        assert(sb.drop_first() =~= b@.skip(i + 1));
        i = i + 1;
    }
    if i == ca.len() {
        i < cb.len()
    } else if i == cb.len() {
        false
    } else {
        ca[i] < cb[i]
    }
}

} // verus!
