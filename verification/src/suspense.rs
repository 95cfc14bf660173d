use vstd::prelude::*;

use crate::format::{placeholder_markup, render_placeholder};
use crate::html::Html;

verus! {

/// A suspended piece of a document: the id under which its result will be
/// streamed, and the placeholder shown until then. Interpolating it into a
/// document renders the placeholder.
pub struct Suspense {
    id: usize,
    placeholder: Html,
}

impl View for Suspense {
    type V = (nat, Seq<char>);

    /// The suspense id and the placeholder content.
    closed spec fn view(&self) -> (nat, Seq<char>) {
        (self.id as nat, self.placeholder@)
    }
}

impl Suspense {
    /// A suspense with the given id and placeholder content.
    pub fn new(id: usize, placeholder: Html) -> (s: Suspense)
        ensures
            s@ == (id as nat, placeholder@),
    {
        Suspense { id, placeholder }
    }

    /// The id under which the result of this suspense is streamed.
    pub fn id(&self) -> (id: usize)
        ensures
            id as nat == self@.0,
    {
        self.id
    }

    /// Renders the placeholder HTML.
    pub fn render_to_html(&self) -> (html: Html)
        ensures
            html@ == placeholder_markup(self@.0, self@.1),
    {
        render_placeholder(&self.id, &self.placeholder)
    }

    /// The placeholder HTML as a string: what interpolating the suspense into
    /// a document writes.
    pub fn to_string(&self) -> (s: String)
        ensures
            s@ == placeholder_markup(self@.0, self@.1),
    {
        self.render_to_html().into_string()
    }
}

} // verus!
