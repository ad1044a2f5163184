//! Binding the inputs of filter primitives.
//!
//! The primitives of a filter form a chain: each one names its inputs, and
//! gives its result a name by which later ones can refer to it.

use vstd::prelude::*;
use crate::attributes::FilterInput;
use crate::text::{str_eq, texts};

verus! {

/// Whether a text is one of the keywords that name a standard input.
pub open spec fn is_input_keyword(s: Seq<char>) -> bool {
    ||| s == "SourceGraphic"@
    ||| s == "SourceAlpha"@
    ||| s == "BackgroundImage"@
    ||| s == "BackgroundAlpha"@
    ||| s == "FillPaint"@
    ||| s == "StrokePaint"@
}

/// The input that a text names: the standard input of that keyword, or
/// the result of that name.
///
/// The name of the input is the text again, so that parsing undoes
/// writing.
pub fn parse_input(s: &str) -> (input: FilterInput)
    ensures
        input.name() == s@,
        input is Reference == !is_input_keyword(s@),
{
    if str_eq(s, "SourceGraphic") {
        FilterInput::SourceGraphic
    } else if str_eq(s, "SourceAlpha") {
        FilterInput::SourceAlpha
    } else if str_eq(s, "BackgroundImage") {
        FilterInput::BackgroundImage
    } else if str_eq(s, "BackgroundAlpha") {
        FilterInput::BackgroundAlpha
    } else if str_eq(s, "FillPaint") {
        FilterInput::FillPaint
    } else if str_eq(s, "StrokePaint") {
        FilterInput::StrokePaint
    } else {
        FilterInput::Reference(s.to_owned())
    }
}

/// Whether `name` is the name of one of the results.
pub fn is_result(results: &[String], name: &str) -> (r: bool)
    ensures
        r == texts(results@).contains(name@),
{
    let mut i: usize = 0;
    while i < results.len()
        invariant
            i <= results@.len(),
            forall|j: int| 0 <= j < i ==> texts(results@)[j] != name@,
        decreases results@.len() - i,
    {
        if str_eq(results[i].as_str(), name) {
            assert(texts(results@)[i as int] == name@);
            return true;
        }
        i = i + 1;
    }
    false
}

/// The input of a primitive, from the text of its input attribute and the
/// names of the results of the primitives before it, in their order.
///
/// A primitive that names no input takes the result of the primitive
/// before it; the first primitive takes the source graphic. A primitive
/// that names a result that no primitive before it gives takes the source
/// graphic.
pub fn resolve_input(value: Option<&str>, results: &[String]) -> (input: FilterInput)
    ensures
        match value {
            None => if results@.len() > 0 {
                input is Reference && input.name() == results@.last()@
            } else {
                input is SourceGraphic
            },
            Some(s) => if is_input_keyword(s@) {
                !(input is Reference) && input.name() == s@
            } else if texts(results@).contains(s@) {
                input is Reference && input.name() == s@
            } else {
                input is SourceGraphic
            },
        },
{
    match value {
        None => {
            if results.len() > 0 {
                FilterInput::Reference(results[results.len() - 1].clone())
            } else {
                FilterInput::SourceGraphic
            }
        },
        Some(s) => {
            let parsed: FilterInput = parse_input(s);
            match parsed {
                FilterInput::Reference(name) => {
                    if is_result(results, name.as_str()) {
                        FilterInput::Reference(name)
                    } else {
                        FilterInput::SourceGraphic
                    }
                },
                other => other,
            }
        },
    }
}

/// The keywords are the names of six different inputs: a standard input
/// is known by its name.
pub proof fn lemma_keywords_differ(a: FilterInput, b: FilterInput)
    requires
        !(a is Reference),
        !(b is Reference),
        a.name() == b.name(),
    ensures
        a == b,
{
    reveal_strlit("SourceGraphic");
    reveal_strlit("SourceAlpha");
    reveal_strlit("BackgroundImage");
    reveal_strlit("BackgroundAlpha");
    reveal_strlit("FillPaint");
    reveal_strlit("StrokePaint");
    // The keywords differ in length, but for two pairs, which differ in
    // a character.
    assert("SourceGraphic"@.len() == 13);
    assert("SourceAlpha"@.len() == 11 && "SourceAlpha"@[1] == 'o');
    assert("BackgroundImage"@.len() == 15 && "BackgroundImage"@[10] == 'I');
    assert("BackgroundAlpha"@.len() == 15 && "BackgroundAlpha"@[10] == 'A');
    assert("FillPaint"@.len() == 9);
    assert("StrokePaint"@.len() == 11 && "StrokePaint"@[1] == 't');
}

} // verus!
