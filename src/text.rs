use std::fmt::Write;
use vstd::prelude::*;

use crate::model::int_text;

verus! {

/// Relies on `String::push`: the character is appended at the end.
#[verifier::external_body]
pub(crate) fn push_char(out: &mut String, c: char)
    ensures
        final(out)@ == old(out)@ + seq![c],
{
    out.push(c)
}

/// Relies on `String::push_str`: the text is appended at the end.
#[verifier::external_body]
pub(crate) fn push_text(out: &mut String, s: &str)
    ensures
        final(out)@ == old(out)@ + s@,
{
    out.push_str(s)
}

/// Relies on `Display` for `i64`, written through `fmt::Write` into a `String`:
/// plain decimal digits with a leading minus for negatives; writing into a
/// `String` cannot fail.
#[verifier::external_body]
pub(crate) fn push_int(out: &mut String, v: i64)
    ensures
        final(out)@ == old(out)@ + int_text(v as int),
{
    let _ = write!(out, "{}", v);
}

} // verus!
