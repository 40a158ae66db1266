//! Compile-time errors of the view DSL: where they point and what they say.

use vstd::prelude::*;
use vstd::string::*;
use crate::text::{cat2, cat3};
use crate::suggest::{did_you_mean, suggestion};

verus! {

/// Where an error points.
#[derive(Debug, Clone, Copy, PartialEq, Eq, Structural)]
pub enum Site {
    /// The macro invocation as a whole.
    CallSite,
    /// The key of an attribute, the name of an element, a bare literal or a
    /// splice, by item id.
    Item(usize),
    /// The value expression of the attribute with this item id.
    Value(usize),
    /// Element `k` of the array value of the attribute with this item id.
    ArrayElem(usize, usize),
}

/// A rejected `view!` / `component!` body.
pub struct ViewError {
    pub site: Site,
    pub message: String,
}

/// The mathematical value of a [`ViewError`].
pub struct ErrorModel {
    pub site: Site,
    pub message: Seq<char>,
}

impl View for ViewError {
    type V = ErrorModel;

    open spec fn view(&self) -> ErrorModel {
        ErrorModel { site: self.site, message: self.message@ }
    }
}

/// The error model at `site` with `message`.
pub open spec fn em(site: Site, message: Seq<char>) -> ErrorModel {
    ErrorModel { site, message }
}

/// An error at `site` saying `text`.
pub fn error_at(site: Site, text: &str) -> (e: ViewError)
    ensures
        e@ == em(site, text@),
{
    ViewError { site, message: String::from_str(text) }
}

/// `before`, then `name` in backquotes, then `after`.
pub open spec fn quoting(before: Seq<char>, name: Seq<char>, after: Seq<char>) -> Seq<char> {
    before + "`"@ + name + "`"@ + after
}

/// An error at `site` saying `before`, then `name` in backquotes, then `after`.
pub fn error_quoting(site: Site, before: &str, name: &str, after: &str) -> (e: ViewError)
    ensures
        e@ == em(site, quoting(before@, name@, after@)),
{
    let m = cat3(before, "`", name);
    let m = m.concat("`").concat(after);
    ViewError { site, message: m }
}

/// The closing part of an "unknown name" message: a suggestion when one is
/// close, else `fallback`.
pub open spec fn suggestion_tail(name: Seq<char>, candidates: Seq<&str>, fallback: Seq<char>) -> Seq<
    char,
> {
    match suggestion(name, candidates) {
        Some(c) => " — did you mean `"@ + c@ + "`?"@,
        None => fallback,
    }
}

/// The message for an unknown `name`: `before`, the name in backquotes,
/// `after`, then the suggestion tail.
pub open spec fn unknown_message(
    before: Seq<char>,
    name: Seq<char>,
    after: Seq<char>,
    candidates: Seq<&str>,
    fallback: Seq<char>,
) -> Seq<char> {
    before + "`"@ + name + "`"@ + after + suggestion_tail(name, candidates, fallback)
}

/// An "unknown name" error, with a "did you mean" suggestion drawn from
/// `candidates` when one is close.
pub fn unknown_error(
    site: Site,
    before: &str,
    name: &str,
    after: &str,
    candidates: &[&str],
    fallback: &str,
) -> (e: ViewError)
    ensures
        e@ == em(site, unknown_message(before@, name@, after@, candidates@, fallback@)),
{
    let m = cat3(before, "`", name);
    let m = m.concat("`").concat(after);
    let tail = match did_you_mean(name, candidates) {
        Some(c) => cat3(" — did you mean `", c, "`?"),
        None => String::from_str(fallback),
    };
    ViewError { site, message: m.concat(tail.as_str()) }
}

/// The message of a splice in a position that takes none.
pub open spec fn splice_message(place: Seq<char>) -> Seq<char> {
    "`{ ... }` splice is not allowed in "@ + place
}

/// An error for a splice in a position that takes none.
pub fn splice_not_allowed(place: &str, id: usize) -> (e: ViewError)
    ensures
        e@ == em(Site::Item(id), splice_message(place@)),
{
    ViewError { site: Site::Item(id), message: cat2("`{ ... }` splice is not allowed in ", place) }
}

} // verus!
