use vstd::prelude::*;

verus! {

/// Pre-escaped HTML content: the markup type that every rendering function of
/// this crate takes and returns.
///
/// No escaping is performed on construction; whoever builds an `Html` vouches
/// that its text is safe to place in a document.
#[derive(Debug)]
pub struct Html(String);

impl View for Html {
    type V = Seq<char>;

    /// The characters of the markup.
    closed spec fn view(&self) -> Seq<char> {
        self.0@
    }
}

impl Html {
    /// Creates an `Html` from raw HTML text.
    pub fn new(raw_html: &str) -> (html: Html)
        ensures
            html@ == raw_html@,
    {
        Html(raw_html.to_owned())
    }

    /// The `Html` that holds exactly the given string.
    pub closed spec fn wrapping(s: String) -> Html {
        Html(s)
    }

    /// Consumes the `Html` and returns the inner string.
    pub fn into_string(self) -> (s: String)
        ensures
            s@ == self@,
    {
        self.0
    }

    /// The markup as an owned string: what formatting the `Html` writes.
    pub fn to_string(&self) -> (s: String)
        ensures
            s@ == self@,
    {
        self.0.clone()
    }

    /// Views the inner HTML as a string slice.
    pub fn as_str(&self) -> (s: &str)
        ensures
            s@ == self@,
    {
        self.0.as_str()
    }
}

impl Clone for Html {
    /// A copy of the same markup.
    fn clone(&self) -> (html: Html)
        ensures
            html@ == self@,
    {
        Html(self.0.clone())
    }
}

impl Default for Html {
    /// Empty markup.
    fn default() -> (html: Html)
        ensures
            html@ == Seq::<char>::empty(),
    {
        Html(String::new())
    }
}

impl From<String> for Html {
    /// Wraps an owned string of raw HTML.
    fn from(s: String) -> (html: Html)
        ensures
            html@ == s@,
    {
        Html(s)
    }
}

impl vstd::std_specs::convert::FromSpecImpl<String> for Html {
    open spec fn obeys_from_spec() -> bool {
        true
    }

    open spec fn from_spec(s: String) -> Html {
        Html::wrapping(s)
    }
}

impl<'a> From<&'a str> for Html {
    /// Copies a string slice of raw HTML.
    fn from(s: &'a str) -> (html: Html)
        ensures
            html@ == s@,
    {
        Html(s.to_owned())
    }
}

impl<'a> vstd::std_specs::convert::FromSpecImpl<&'a str> for Html {
    /// The result is stated by the `ensures` of `from` itself: a spec
    /// function cannot copy the slice into a `String`.
    open spec fn obeys_from_spec() -> bool {
        false
    }

    open spec fn from_spec(s: &'a str) -> Html {
        arbitrary()
    }
}

} // verus!
