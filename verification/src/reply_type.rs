//! The three standard-reply message types and their recognizers.

use vstd::prelude::*;
use crate::text::{eq_ignore_ascii, str_eq_ignore_ascii_case};

verus! {

/// The type token of a standard-reply message.
#[derive(Debug, Clone, Copy, PartialEq, Eq, Structural)]
pub enum StandardTypes {
    Fail,
    Warn,
    Note,
}

/// Whether `token` is one of the three type tokens, up to ASCII case.
pub open spec fn is_standard_type_token(token: Seq<char>) -> bool {
    ||| eq_ignore_ascii(token, "FAIL"@)
    ||| eq_ignore_ascii(token, "WARN"@)
    ||| eq_ignore_ascii(token, "NOTE"@)
}

/// The reply type that `token` names, up to ASCII case; `None` when it names
/// none of the three.
pub open spec fn type_of_token(token: Seq<char>) -> Option<StandardTypes> {
    if eq_ignore_ascii(token, "FAIL"@) {
        Some(StandardTypes::Fail)
    } else if eq_ignore_ascii(token, "WARN"@) {
        Some(StandardTypes::Warn)
    } else if eq_ignore_ascii(token, "NOTE"@) {
        Some(StandardTypes::Note)
    } else {
        None
    }
}

impl StandardTypes {
    /// Whether `s` is a standard-reply type token (`FAIL`, `WARN` or `NOTE`,
    /// in any ASCII case).
    pub fn is_standard_type(s: &str) -> (r: bool)
        ensures
            r == is_standard_type_token(s@),
    {
        str_eq_ignore_ascii_case(s, "FAIL") || str_eq_ignore_ascii_case(s, "WARN")
            || str_eq_ignore_ascii_case(s, "NOTE")
    }

    /// Parses `s` as a standard-reply type, comparing up to ASCII case;
    /// fails exactly on the tokens that name none of the three types.
    pub fn from_str(s: &str) -> (r: Result<Self, &'static str>)
        ensures
            r matches Ok(t) ==> type_of_token(s@) == Some(t),
            r is Err <==> type_of_token(s@) is None,
            r matches Err(e) ==> e@ == "Unexpected standard response type, neither fail, warn or note."@,
    {
        if str_eq_ignore_ascii_case(s, "FAIL") {
            Ok(Self::Fail)
        } else if str_eq_ignore_ascii_case(s, "WARN") {
            Ok(Self::Warn)
        } else if str_eq_ignore_ascii_case(s, "NOTE") {
            Ok(Self::Note)
        } else {
            Err("Unexpected standard response type, neither fail, warn or note.")
        }
    }
}

/// The predicate and the strict parse agree: a token is a standard-reply
/// type exactly when parsing it succeeds.
pub proof fn lemma_type_partition(token: Seq<char>)
    ensures
        is_standard_type_token(token) <==> type_of_token(token) is Some,
{
}

/// Both recognizers are ASCII case-insensitive: tokens equal up to ASCII
/// case are recognized and parsed alike.
pub proof fn lemma_type_case_insensitive(s: Seq<char>, t: Seq<char>)
    requires
        eq_ignore_ascii(s, t),
    ensures
        is_standard_type_token(s) == is_standard_type_token(t),
        type_of_token(s) == type_of_token(t),
{
}

} // verus!
