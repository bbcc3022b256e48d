//! Labels: plain text, quoted as needed, or HTML-like markup written as given.

use vstd::prelude::*;
use crate::utils::{sanitize, sanitized};

verus! {

#[derive(Clone, Debug, PartialEq, Eq)]
pub enum Label {
    /// Plain text, quoted when it cannot stand bare.
    Text(String),
    /// HTML-like markup; the caller supplies the enclosing angle brackets.
    HtmlLike(String),
}

impl Label {
    /// The label as it is written.
    pub open spec fn text(&self) -> Seq<char> {
        match self {
            Label::Text(s) => sanitized(s@),
            Label::HtmlLike(s) => s@,
        }
    }

    pub fn as_string(&self) -> (r: String)
        ensures
            r@ == self.text(),
    {
        match self {
            Label::Text(s) => sanitize(s.as_str()),
            Label::HtmlLike(s) => s.clone(),
        }
    }
}

} // verus!
