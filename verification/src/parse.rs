//! Parsing of form input through the standard library.
use vstd::prelude::*;

verus! {

/// What `str::parse::<i16>` yields for a text, `None` where it fails.
pub uninterp spec fn parsed_i16(s: Seq<char>) -> Option<i16>;

/// What `str::parse::<i8>` yields for a text, `None` where it fails.
pub uninterp spec fn parsed_i8(s: Seq<char>) -> Option<i8>;

/// Calls `str::parse::<i16>` and keeps the number, dropping the error.
/// Its result is named, not described: it depends on the text alone.
#[verifier::external_body]
pub(crate) fn parse_i16(s: &str) -> (r: Option<i16>)
    ensures
        r == parsed_i16(s@),
{
    s.parse::<i16>().ok()
}

/// Calls `str::parse::<i8>` and keeps the number, dropping the error.
/// Its result is named, not described: it depends on the text alone.
#[verifier::external_body]
pub(crate) fn parse_i8(s: &str) -> (r: Option<i8>)
    ensures
        r == parsed_i8(s@),
{
    s.parse::<i8>().ok()
}

/// Calls `str::parse::<bool>`, whose documentation says that it accepts
/// exactly `"true"` and `"false"`; the error is dropped.
#[verifier::external_body]
pub(crate) fn parse_bool(s: &str) -> (r: Option<bool>)
    ensures
        r == (if s@ == "true"@ {
            Some(true)
        } else if s@ == "false"@ {
            Some(false)
        } else {
            None
        }),
{
    s.parse::<bool>().ok()
}

/// What `str::replace` yields: `s` with every match of `from` replaced by `to`.
pub uninterp spec fn replaced(s: Seq<char>, from: Seq<char>, to: Seq<char>) -> Seq<char>;

/// Calls `str::replace`; its result is named, not described: it depends on
/// the three texts alone.
#[verifier::external_body]
pub(crate) fn replace_all(s: &str, from: &str, to: &str) -> (r: String)
    ensures
        r@ == replaced(s@, from@, to@),
{
    s.replace(from, to)
}

} // verus!
