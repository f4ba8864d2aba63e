//! Colour rules: literal find-and-replace on a document's markup.
//!
//! A rule names a piece of text and what takes its place. Rules are applied
//! one after another, each to the whole text that the rules before it left
//! behind, so a later rule sees what an earlier one wrote.

use vstd::prelude::*;
use crate::text::{append_chars, chars_of, string_of};

verus! {

/// One colour rule: every occurrence of `match_color` becomes `replace`.
#[derive(Debug)]
pub struct Color {
    pub match_color: String,
    pub replace: String,
}

/// What a rule says, as plain text.
pub struct Substitution {
    pub pattern: Seq<char>,
    pub replacement: Seq<char>,
}

impl View for Color {
    type V = Substitution;

    open spec fn view(&self) -> Substitution {
        Substitution { pattern: self.match_color@, replacement: self.replace@ }
    }
}

impl Color {
    /// A rule that replaces `match_color` by `replace`.
    pub fn new(match_color: &str, replace: &str) -> (rule: Color)
        ensures
            rule@.pattern == match_color@,
            rule@.replacement == replace@,
    {
        Color { match_color: match_color.to_owned(), replace: replace.to_owned() }
    }

    /// A second rule that says the same as this one.
    pub fn duplicate(&self) -> (rule: Color)
        ensures
            rule@ == self@,
    {
        Color { match_color: self.match_color.clone(), replace: self.replace.clone() }
    }
}

/// The rules of a list, each as plain text.
pub open spec fn rules_of(colors: Seq<Color>) -> Seq<Substitution> {
    colors.map_values(|c: Color| c@)
}

/// Whether `text` begins with `pattern`.
pub open spec fn starts_with(text: Seq<char>, pattern: Seq<char>) -> bool {
    pattern.len() <= text.len() && text.take(pattern.len() as int) == pattern
}

/// Whether `pattern` stands in `text` at position `at`.
pub open spec fn occurs_at(text: Seq<char>, pattern: Seq<char>, at: int) -> bool {
    0 <= at <= text.len() && starts_with(text.skip(at), pattern)
}

/// `text` with every occurrence of `pattern` replaced by `replacement`.
///
/// Occurrences are found from left to right and do not overlap: after one
/// is replaced the search goes on behind it. An empty pattern occurs before
/// every character and once more at the end.
pub open spec fn replace_all(
    text: Seq<char>,
    pattern: Seq<char>,
    replacement: Seq<char>,
) -> Seq<char>
    decreases text.len(),
{
    if text.len() == 0 {
        if pattern.len() == 0 {
            replacement
        } else {
            text
        }
    } else if !starts_with(text, pattern) {
        seq![text[0]] + replace_all(text.skip(1), pattern, replacement)
    } else if pattern.len() == 0 {
        replacement + seq![text[0]] + replace_all(text.skip(1), pattern, replacement)
    } else {
        replacement + replace_all(text.skip(pattern.len() as int), pattern, replacement)
    }
}

/// `text` after the rules were applied in list order, each to the whole
/// result of the one before.
pub open spec fn apply_rules(text: Seq<char>, rules: Seq<Substitution>) -> Seq<char>
    decreases rules.len(),
{
    if rules.len() == 0 {
        text
    } else {
        let before = apply_rules(text, rules.drop_last());
        replace_all(before, rules.last().pattern, rules.last().replacement)
    }
}

/// Whether `pattern` stands in `text` at index `at`.
fn matches_at(text: &Vec<char>, pattern: &Vec<char>, at: usize) -> (found: bool)
    requires
        at <= text.len(),
    ensures
        found == occurs_at(text@, pattern@, at as int),
{
    if pattern.len() > text.len() - at {
        return false;
    }
    let mut j: usize = 0;
    while j < pattern.len()
        invariant
            at <= text.len(),
            pattern.len() <= text.len() - at,
            j <= pattern.len(),
            forall|k: int| 0 <= k < j ==> text@[at + k] == pattern@[k],
        decreases pattern.len() - j,
    {
        if text[at + j] != pattern[j] {
            assert(text@.skip(at as int).take(pattern.len() as int)[j as int] != pattern@[j as int]);
            return false;
        }
        j = j + 1;
    }
    assert(text@.skip(at as int).take(pattern.len() as int) =~= pattern@);
    true
}

/// Replaces every occurrence of `pattern` in `text` by `replacement`.
pub fn replace_chars(text: &Vec<char>, pattern: &Vec<char>, replacement: &Vec<char>) -> (out: Vec<
    char,
>)
    ensures
        out@ == replace_all(text@, pattern@, replacement@),
{
    let mut out: Vec<char> = Vec::new();
    let mut i: usize = 0;
    assert(text@.skip(0) =~= text@);
    assert(out@ + replace_all(text@, pattern@, replacement@) =~= replace_all(
        text@,
        pattern@,
        replacement@,
    ));
    while i < text.len()
        invariant
            i <= text.len(),
            out@ + replace_all(text@.skip(i as int), pattern@, replacement@) == replace_all(
                text@,
                pattern@,
                replacement@,
            ),
        decreases text.len() - i,
    {
        let ghost rest = text@.skip(i as int);
        let ghost before = out@;
        assert(rest.len() > 0 && rest[0] == text@[i as int]);
        if matches_at(text, pattern, i) {
            append_chars(&mut out, replacement);
            if pattern.len() == 0 {
                out.push(text[i]);
                assert(rest.skip(1) =~= text@.skip(i + 1));
                assert(out@ =~= before + (replacement@ + seq![rest[0]]));
                i = i + 1;
            } else {
                assert(rest.skip(pattern.len() as int) =~= text@.skip(i + pattern.len()));
                i = i + pattern.len();
            }
        } else {
            out.push(text[i]);
            assert(rest.skip(1) =~= text@.skip(i + 1));
            assert(out@ =~= before + seq![rest[0]]);
            i = i + 1;
        }
    }
    assert(text@.skip(i as int).len() == 0);
    if pattern.len() == 0 {
        append_chars(&mut out, replacement);
    }
    out
}

/// Applies the colour rules to a document's text, in list order.
///
/// With no rules the text comes back unchanged. A rule whose text to match
/// does not occur changes nothing; that is no error.
pub fn apply(text: &str, colors: &Vec<Color>) -> (out: String)
    ensures
        out@ == apply_rules(text@, rules_of(colors@)),
{
    let mut current = chars_of(text);
    let mut i: usize = 0;
    while i < colors.len()
        invariant
            i <= colors.len(),
            current@ == apply_rules(text@, rules_of(colors@).take(i as int)),
        decreases colors.len() - i,
    {
        let pattern = chars_of(colors[i].match_color.as_str());
        let replacement = chars_of(colors[i].replace.as_str());
        proof {
            let done = rules_of(colors@).take(i + 1);
            assert(done.drop_last() =~= rules_of(colors@).take(i as int));
            assert(done.last() == colors@[i as int]@);
        }
        current = replace_chars(&current, &pattern, &replacement);
        i = i + 1;
    }
    assert(rules_of(colors@).take(i as int) =~= rules_of(colors@));
    string_of(&current)
}

/// Without rules the text stays as it is.
pub proof fn lemma_no_rules_is_identity(text: Seq<char>)
    ensures
        apply_rules(text, Seq::<Substitution>::empty()) == text,
{
}

/// Applying a list of rules is applying its first part and then, to what
/// that gave, the rest: a rule works on the output of those before it.
pub proof fn lemma_rules_apply_in_order(
    text: Seq<char>,
    first: Seq<Substitution>,
    second: Seq<Substitution>,
)
    ensures
        apply_rules(text, first + second) == apply_rules(apply_rules(text, first), second),
    decreases second.len(),
{
    if second.len() == 0 {
        assert(first + second =~= first);
    } else {
        lemma_rules_apply_in_order(text, first, second.drop_last());
        assert((first + second).drop_last() =~= first + second.drop_last());
        assert((first + second).last() == second.last());
    }
}

/// A rule whose pattern is not empty and occurs nowhere leaves the text as
/// it is.
pub proof fn lemma_replace_without_match(
    text: Seq<char>,
    pattern: Seq<char>,
    replacement: Seq<char>,
)
    requires
        pattern.len() > 0,
        forall|at: int| 0 <= at <= text.len() ==> !occurs_at(text, pattern, at),
    ensures
        replace_all(text, pattern, replacement) == text,
    decreases text.len(),
{
    if text.len() > 0 {
        assert(!occurs_at(text, pattern, 0));
        assert(text.skip(0) =~= text);
        let rest = text.skip(1);
        assert forall|at: int| 0 <= at <= rest.len() implies !occurs_at(rest, pattern, at) by {
            assert(!occurs_at(text, pattern, at + 1));
            assert(rest.skip(at) =~= text.skip(at + 1));
        }
        lemma_replace_without_match(rest, pattern, replacement);
        assert(seq![text[0]] + rest =~= text);
    }
}

} // verus!
