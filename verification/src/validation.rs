//! The field rules that request bodies are checked against before any work is done: a
//! text's length in characters, and a number's range. Every field is checked, so one
//! answer names every field at fault, in the order the request declares them.

use vstd::prelude::*;

use crate::error::{fields_view, ApiError, ErrorCode, FieldError};
use crate::text::chars_of;

verus! {

broadcast use vstd::seq_lib::group_seq_properties;

/// One field at fault, as `(field, code, message)`.
pub type Issue = (Seq<char>, Seq<char>, Seq<char>);

/// A text is between `min` and `max` characters long, both included.
pub open spec fn length_issue(field: Seq<char>, value: Seq<char>, min: int, max: int, message: Seq<char>) -> Seq<Issue> {
    if min <= value.len() <= max {
        Seq::empty()
    } else {
        seq![(field, "length"@, message)]
    }
}

/// An optional text is only checked when present.
pub open spec fn optional_length_issue(
    field: Seq<char>,
    value: Option<String>,
    min: int,
    max: int,
    message: Seq<char>,
) -> Seq<Issue> {
    match value {
        Some(v) => length_issue(field, v@, min, max, message),
        None => Seq::empty(),
    }
}

/// A number is between `min` and `max`, both included.
pub open spec fn range_issue(field: Seq<char>, value: int, min: int, max: int, message: Seq<char>) -> Seq<Issue> {
    if min <= value <= max {
        Seq::empty()
    } else {
        seq![(field, "range"@, message)]
    }
}

/// What a check answers for the issues it found: nothing, or one validation failure
/// that carries them all.
pub open spec fn verdict_of(issues: Seq<Issue>, r: Result<(), ApiError>) -> bool {
    if issues.len() == 0 {
        r is Ok
    } else {
        r matches Err(e) && e.code == ErrorCode::ValidationFailed && fields_view(e.field_errors@) == issues
    }
}

fn note(fields: &mut Vec<FieldError>, field: &str, code: &str, message: &str)
    ensures
        fields_view(final(fields)@) == fields_view(old(fields)@).push((field@, code@, message@)),
{
    let ghost before = fields@;
    fields.push(FieldError::new(field, code, message));
    assert(fields_view(fields@) =~= fields_view(before).push((field@, code@, message@)));
}

/// Check a text's length in characters, noting the field when it is out of bounds.
pub fn check_length(fields: &mut Vec<FieldError>, field: &str, value: &str, min: usize, max: usize, message: &str)
    ensures
        fields_view(final(fields)@) == fields_view(old(fields)@) + length_issue(field@, value@, min as int, max as int, message@),
{
    let n = chars_of(value).len();
    if min <= n && n <= max {
        assert(fields_view(fields@) + Seq::<Issue>::empty() =~= fields_view(fields@));
    } else {
        let ghost before = fields@;
        note(fields, field, "length", message);
        assert(fields_view(before).push((field@, "length"@, message@)) =~= fields_view(before) + seq![(
            field@,
            "length"@,
            message@,
        )]);
    }
}

/// The same for an optional text, which is only checked when present.
pub fn check_optional_length(
    fields: &mut Vec<FieldError>,
    field: &str,
    value: &Option<String>,
    min: usize,
    max: usize,
    message: &str,
)
    ensures
        fields_view(final(fields)@) == fields_view(old(fields)@) + optional_length_issue(
            field@,
            *value,
            min as int,
            max as int,
            message@,
        ),
{
    match value {
        Some(v) => check_length(fields, field, v.as_str(), min, max, message),
        None => {
            assert(fields_view(fields@) + Seq::<Issue>::empty() =~= fields_view(fields@));
        },
    }
}

/// Check a number's range, noting the field when it is outside.
pub fn check_range(fields: &mut Vec<FieldError>, field: &str, value: i64, min: i64, max: i64, message: &str)
    ensures
        fields_view(final(fields)@) == fields_view(old(fields)@) + range_issue(field@, value as int, min as int, max as int, message@),
{
    if min <= value && value <= max {
        assert(fields_view(fields@) + Seq::<Issue>::empty() =~= fields_view(fields@));
    } else {
        let ghost before = fields@;
        note(fields, field, "range", message);
        assert(fields_view(before).push((field@, "range"@, message@)) =~= fields_view(before) + seq![(
            field@,
            "range"@,
            message@,
        )]);
    }
}

/// The answer for the fields noted.
pub fn verdict(fields: Vec<FieldError>) -> (r: Result<(), ApiError>)
    ensures
        verdict_of(fields_view(fields@), r),
{
    if fields.len() == 0 {
        Ok(())
    } else {
        Err(ApiError::with_fields(ErrorCode::ValidationFailed, fields))
    }
}

} // verus!
