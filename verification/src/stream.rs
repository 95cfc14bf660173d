use vstd::prelude::*;

use crate::format::{global_script_markup, render_global_script};
use crate::html::Html;

verus! {

/// The first chunk of the response: the document, followed by the global
/// swapping script where it is included.
pub open spec fn initial_chunk_markup(document: Seq<char>, include_script: bool) -> Seq<char> {
    if include_script {
        document + global_script_markup()
    } else {
        document
    }
}

/// The first chunk always starts with the whole document; without the script
/// it is the document itself, and with it the document is followed by the
/// script element and nothing else.
pub proof fn lemma_initial_chunk_starts_with_document(document: Seq<char>)
    ensures
        document.is_prefix_of(initial_chunk_markup(document, true)),
        document.is_prefix_of(initial_chunk_markup(document, false)),
        initial_chunk_markup(document, false) == document,
        initial_chunk_markup(document, true).len() == document.len() + global_script_markup().len(),
        initial_chunk_markup(document, true).subrange(
            document.len() as int,
            initial_chunk_markup(document, true).len() as int,
        ) == global_script_markup(),
{
    let with_script = document + global_script_markup();
    assert(initial_chunk_markup(document, true) =~= with_script);
    assert(with_script.subrange(0, document.len() as int) =~= document);
    assert(with_script.subrange(document.len() as int, with_script.len() as int)
        =~= global_script_markup());
    assert(document.subrange(0, document.len() as int) =~= document);
}

/// Builds the first chunk of the response from the document.
pub fn initial_chunk(document: &Html, include_script: bool) -> (chunk: Html)
    ensures
        chunk@ == initial_chunk_markup(document@, include_script),
{
    let mut s = String::new();
    s.append(document.as_str());
    if include_script {
        let script = render_global_script();
        s.append(script.as_str());
    }
    Html::from(s)
}

/// The start of a response stream: holds the first chunk until it is sent.
pub struct DocumentHead {
    pending: Option<Html>,
}

impl View for DocumentHead {
    type V = Option<Seq<char>>;

    /// The first chunk while it has not been sent, `None` afterwards.
    closed spec fn view(&self) -> Option<Seq<char>> {
        match self.pending {
            Some(chunk) => Some(chunk@),
            None => None,
        }
    }
}

impl DocumentHead {
    /// A head whose first chunk is the document, with the script where it is
    /// included.
    pub fn new(document: Html, include_script: bool) -> (head: DocumentHead)
        ensures
            head@ == Some(initial_chunk_markup(document@, include_script)),
    {
        DocumentHead { pending: Some(initial_chunk(&document, include_script)) }
    }

    /// Hands out the first chunk on the first call and nothing afterwards;
    /// the chunks received from suspended tasks follow it.
    pub fn take_first(&mut self) -> (chunk: Option<Html>)
        ensures
            match chunk {
                Some(c) => old(self)@ == Some(c@),
                None => old(self)@ is None,
            },
            final(self)@ is None,
    {
        self.pending.take()
    }
}

} // verus!
