//! The HTTP side of a request: its url, method and body.
use vstd::prelude::*;

verus! {

/// A request url, built from path segments.
#[derive(Debug, PartialEq, Clone)]
pub struct Url(String);

impl View for Url {
    type V = Seq<char>;

    closed spec fn view(&self) -> Seq<char> {
        self.0@
    }
}

impl Url {
    /// The url spelled by `value`.
    pub fn from_string(value: String) -> (r: Url)
        ensures
            r@ == value@,
    {
        Url(value)
    }

    /// The url's text.
    pub fn as_str(&self) -> (r: &str)
        ensures
            r@ == self@,
    {
        self.0.as_str()
    }
}

/// The body type of requests that carry none.
pub type DefaultBody = &'static [u8];

/// An empty body, which allocates nothing.
pub fn empty_body() -> (r: DefaultBody)
    ensures
        r@.len() == 0,
{
    &[]
}

/// A request to any endpoint: where it goes, how, and what it carries.
#[derive(Debug, PartialEq, Clone)]
pub struct HttpRequest<B> {
    pub url: Url,
    pub method: HttpMethod,
    pub body: Option<B>,
}

/// An HTTP verb.
#[derive(Debug, PartialEq, Eq, Clone, Copy, Structural)]
pub enum HttpMethod {
    Head,
    Get,
    Post,
    Put,
    Delete,
    Patch,
}

} // verus!
