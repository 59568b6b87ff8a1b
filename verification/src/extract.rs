//! Ordered pattern rules that pull numeric fields out of statement markup.
//!
//! A field is described by an ordered list of rules; the first rule whose
//! pattern matches the document yields the captured digit run, and the run
//! parses to the field's value. A field none of whose rules match, or whose
//! capture does not parse, resolves to the zero sentinel and is flagged so
//! that callers can report the miss.

use vstd::prelude::*;
use crate::text::captured_or_zero;
use crate::text::capture_value;

verus! {

/// What the capture group named `group` yields when `pattern` is matched
/// against `text`: the group's text at the leftmost match, or nothing when
/// the pattern is invalid, does not match, or has no group of that name.
/// The regex engine is deterministic, so this is a function of the three
/// texts alone.
pub uninterp spec fn capture_of(pattern: Seq<char>, text: Seq<char>, group: Seq<char>) -> Option<Seq<char>>;

/// View of an optional owned string.
pub open spec fn str_opt_view(o: Option<String>) -> Option<Seq<char>> {
    match o {
        Some(s) => Some(s@),
        None => None,
    }
}

/// Relies on regex's `Regex::new`, `Regex::captures` and `Captures::name`:
/// compiling a pattern and running it over a haystack is a function of the
/// pattern and haystack alone, and `name` returns the text of the named
/// capture group at the leftmost match, if any.
#[verifier::external_body]
fn regex_capture(pattern: &str, text: &str, group: &str) -> (r: Option<String>)
    ensures
        str_opt_view(r) == capture_of(pattern@, text@, group@),
{
    match regex::Regex::new(pattern) {
        Ok(re) => re.captures(text).and_then(|c| c.name(group)).map(|m| m.as_str().to_string()),
        Err(_) => None,
    }
}

/// One extraction rule: a pattern with the capture group that holds the
/// field's digits.
pub struct Rule {
    pub pattern: String,
    pub group: String,
}

pub ghost struct RuleView {
    pub pattern: Seq<char>,
    pub group: Seq<char>,
}

impl View for Rule {
    type V = RuleView;

    open spec fn view(&self) -> RuleView {
        RuleView { pattern: self.pattern@, group: self.group@ }
    }
}

/// What one rule captures from a document.
pub open spec fn rule_capture(doc: Seq<char>, r: RuleView) -> Option<Seq<char>> {
    capture_of(r.pattern, doc, r.group)
}

/// The capture of the first rule, in declared order, that matches at all.
pub open spec fn first_capture(doc: Seq<char>, rules: Seq<RuleView>) -> Option<Seq<char>>
    decreases rules.len(),
{
    if rules.len() == 0 {
        None::<Seq<char>>
    } else if rule_capture(doc, rules[0]) is Some {
        rule_capture(doc, rules[0])
    } else {
        first_capture(doc, rules.drop_first())
    }
}

/// The value a field resolves to: the parsed capture of the first matching
/// rule, or the zero sentinel.
pub open spec fn field_value(doc: Seq<char>, rules: Seq<RuleView>) -> u64 {
    captured_or_zero(first_capture(doc, rules))
}

/// A resolved field. `matched` records whether any rule matched; a false
/// `matched` is the diagnostic that distinguishes the zero sentinel from a
/// genuine zero.
pub struct FieldOutcome {
    pub value: u64,
    pub matched: bool,
}

proof fn lemma_first_capture_skip(doc: Seq<char>, rules: Seq<RuleView>, i: int)
    requires
        0 <= i < rules.len(),
        rule_capture(doc, rules[i]) is None,
    ensures
        first_capture(doc, rules.skip(i)) == first_capture(doc, rules.skip(i + 1)),
{
    assert(rules.skip(i).len() == rules.len() - i);
    assert(rules.skip(i)[0] == rules[i]);
    assert(rules.skip(i).drop_first() =~= rules.skip(i + 1));
}

/// Resolve one field of a document against its ordered rules.
pub fn extract_field(doc: &str, rules: &Vec<Rule>) -> (r: FieldOutcome)
    ensures
        r.value == field_value(doc@, rules@.map_values(|x: Rule| x@)),
        r.matched == (first_capture(doc@, rules@.map_values(|x: Rule| x@)) is Some),
{
    let ghost rv = rules@.map_values(|x: Rule| x@);
    proof {
        assert(rv.skip(0) =~= rv);
    }
    let mut i: usize = 0;
    while i < rules.len()
        invariant
            i <= rules.len(),
            rv == rules@.map_values(|x: Rule| x@),
            first_capture(doc@, rv) == first_capture(doc@, rv.skip(i as int)),
        decreases rules.len() - i,
    {
        let rule = &rules[i];
        let cap = regex_capture(rule.pattern.as_str(), doc, rule.group.as_str());
        proof {
            assert(rv[i as int] == rules@[i as int]@);
            assert(rv.skip(i as int)[0] == rv[i as int]);
        }
        match cap {
            Some(s) => {
                let found = Some(s);
                let value = capture_value(&found);
                proof {
                    assert(first_capture(doc@, rv.skip(i as int)) == rule_capture(doc@, rv[i as int]));
                }
                return FieldOutcome { value, matched: true };
            },
            None => {
                proof {
                    lemma_first_capture_skip(doc@, rv, i as int);
                }
            },
        }
        i += 1;
    }
    proof {
        assert(rv.skip(rules@.len() as int).len() == 0);
    }
    FieldOutcome { value: 0, matched: false }
}

} // verus!
