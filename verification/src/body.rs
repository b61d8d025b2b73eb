use vstd::prelude::*;

verus! {

/// The declared content type of a message body.
#[derive(Clone, Copy, Debug, PartialEq, Eq, Structural)]
pub enum BodyType {
    Text,
    Html,
}

impl BodyType {
    /// The MIME type this body declares.
    pub fn mime_type(&self) -> (s: &'static str)
        ensures
            self is Text ==> s@ == "text/plain"@,
            self is Html ==> s@ == "text/html"@,
    {
        match self {
            BodyType::Text => "text/plain",
            BodyType::Html => "text/html",
        }
    }
}

/// A message body as the provider carries it: a content type and the raw
/// content (markup when the type is Html).
#[derive(Clone, Debug)]
pub struct Body {
    pub content_type: BodyType,
    pub content: String,
}

} // verus!
