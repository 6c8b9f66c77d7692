//! The rules a todo's text must meet, and the message that lists the rules
//! an input broke.

use vstd::prelude::*;

use crate::todo::text_view;

verus! {

/// The largest number of characters a todo's text may have.
pub const MAX_TEXT_LEN: usize = 100;

/// A rule on the `text` field that an input broke.
#[derive(Clone, Copy, Debug, PartialEq, Eq)]
pub enum ValidationError {
    /// The text has no characters.
    EmptyText,
    /// The text has more than `MAX_TEXT_LEN` characters.
    TextTooLong,
}

/// The rules that a text breaks, in the order they are checked: emptiness, then length.
pub open spec fn text_violations(text: Seq<char>) -> Seq<ValidationError> {
    (if text.len() == 0 {
        seq![ValidationError::EmptyText]
    } else {
        Seq::empty()
    }) + (if text.len() > MAX_TEXT_LEN {
        seq![ValidationError::TextTooLong]
    } else {
        Seq::empty()
    })
}

/// The rules that the text of an update breaks: none when it carries no text.
pub open spec fn update_violations(text: Option<Seq<char>>) -> Seq<ValidationError> {
    match text {
        Some(t) => text_violations(t),
        None => Seq::empty(),
    }
}

/// A text that breaks no rule: 1 to `MAX_TEXT_LEN` characters.
pub open spec fn is_valid_text(text: Seq<char>) -> bool {
    1 <= text.len() <= MAX_TEXT_LEN
}

/// How one broken rule reads in a message: the field, a colon, the reason.
pub open spec fn entry_text(e: ValidationError) -> Seq<char> {
    match e {
        ValidationError::EmptyText => "text: Can not be empty"@,
        ValidationError::TextTooLong => "text: Over text length"@,
    }
}

/// The entries of the broken rules, separated by a comma and a space.
pub open spec fn joined_entries(es: Seq<ValidationError>) -> Seq<char>
    decreases es.len(),
{
    if es.len() == 0 {
        Seq::empty()
    } else if es.len() == 1 {
        entry_text(es[0])
    } else {
        joined_entries(es.drop_last()) + ", "@ + entry_text(es.last())
    }
}

/// The whole message for a list of broken rules.
pub open spec fn error_message(es: Seq<ValidationError>) -> Seq<char> {
    "Validation error: ["@ + joined_entries(es) + "]"@
}

impl ValidationError {
    /// The entry that stands for this rule in a message.
    pub fn entry(&self) -> (r: &'static str)
        ensures
            r@ == entry_text(*self),
    {
        match self {
            ValidationError::EmptyText => "text: Can not be empty",
            ValidationError::TextTooLong => "text: Over text length",
        }
    }
}

/// Checks a todo's text against each rule in turn and lists those it breaks.
pub fn validate_text(text: &str) -> (r: Vec<ValidationError>)
    ensures
        r@ == text_violations(text@),
        r@.len() == 0 <==> is_valid_text(text@),
{
    let n = text.unicode_len();
    let mut errors: Vec<ValidationError> = Vec::new();
    if n == 0 {
        errors.push(ValidationError::EmptyText);
    }
    if n > MAX_TEXT_LEN {
        errors.push(ValidationError::TextTooLong);
    }
    assert(errors@ =~= text_violations(text@));
    errors
}

/// Checks the text of an update, when it carries one.
pub fn validate_update_text(text: &Option<String>) -> (r: Vec<ValidationError>)
    ensures
        r@ == update_violations(text_view(*text)),
{
    match text {
        Some(t) => validate_text(t.as_str()),
        None => Vec::new(),
    }
}

/// Renders the message that lists the broken rules:
/// `Validation error: [<field>: <reason>, ...]`.
pub fn validation_message(errors: &Vec<ValidationError>) -> (r: String)
    ensures
        r@ == error_message(errors@),
{
    let mut out = String::from_str("Validation error: [");
    let mut k: usize = 0;
    while k < errors.len()
        invariant
            0 <= k <= errors.len(),
            out@ == "Validation error: ["@ + joined_entries(errors@.take(k as int)),
        decreases errors.len() - k,
    {
        if k > 0 {
            out.append(", ");
        }
        out.append(errors[k].entry());
        proof {
            let es = errors@.take(k as int + 1);
            assert(es.drop_last() =~= errors@.take(k as int));
            assert(es.last() == errors@[k as int]);
            if k == 0 {
                assert(es[0] == errors@[0]);
            }
        }
        k = k + 1;
    }
    out.append("]");
    proof {
        assert(errors@.take(k as int) =~= errors@);
    }
    out
}

} // verus!
