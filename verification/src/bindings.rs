//! The calls that leave this crate. Nothing here is proved: each contract
//! records what the called function is documented to do.

use vstd::prelude::*;
use crate::model::lib_prefix;
use crate::text::{has_prefix, has_suffix};

verus! {

/// The Pascal-case form that `inflector` gives a text.
pub uninterp spec fn pascal_case_of(s: Seq<char>) -> Seq<char>;

/// Whether `syn` reads a text as one plain identifier (no keyword, nothing
/// left over).
pub uninterp spec fn ident_parses(s: Seq<char>) -> bool;

/// The pattern of a constructor's name: the prefix, one or more characters
/// other than `_`, then `_create`, anchored at both ends.
pub open spec fn create_pattern() -> Seq<char> {
    "^"@ + lib_prefix() + "([^_]+)_create$"@
}

/// The widget that a constructor's name declares: the name is the prefix, a
/// non-empty run without `_`, and `_create`, and the widget is that run.
pub open spec fn created_widget(name: Seq<char>) -> Option<Seq<char>> {
    let head = lib_prefix();
    let tail = "_create"@;
    let run = name.subrange(head.len() as int, name.len() - tail.len());
    if name.len() > head.len() + tail.len() && has_prefix(name, head) && has_suffix(name, tail)
        && !run.contains('_') {
        Some(run)
    } else {
        None
    }
}

/// Calls `inflector::cases::pascalcase::to_pascal_case`. The result is a
/// function of the text alone and is known here only by name.
#[verifier::external_body]
pub(crate) fn pascal_case(s: &str) -> (r: String)
    ensures
        r@ == pascal_case_of(s@),
{
    inflector::cases::pascalcase::to_pascal_case(s)
}

/// Calls `syn::parse_str::<syn::Ident>` and tells whether it succeeded. The
/// answer is a function of the text alone and is known here only by name.
#[verifier::external_body]
pub(crate) fn parses_as_ident(s: &str) -> (r: bool)
    ensures
        r == ident_parses(s@),
{
    syn::parse_str::<syn::Ident>(s).is_ok()
}

/// Compiles the constructor pattern with `regex::Regex::new` and asks
/// `Regex::captures` for the first group on `text`. For this one pattern the
/// crate's syntax says when it matches and what the group holds: `^` and `$`
/// anchor at the ends of the text, `[^_]+` takes one or more characters other
/// than `_`, the rest is literal.
#[verifier::external_body]
pub(crate) fn first_capture(pattern: &str, text: &str) -> (r: Option<String>)
    requires
        pattern@ == create_pattern(),
    ensures
        match r {
            Some(w) => created_widget(text@) == Some(w@),
            None => created_widget(text@).is_none(),
        },
{
    match regex::Regex::new(pattern).unwrap().captures(text) {
        Some(groups) => Some(groups[1].to_string()),
        None => None,
    }
}

} // verus!
