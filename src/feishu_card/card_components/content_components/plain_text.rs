use vstd::prelude::*;

verus! {

/// A piece of plain text in a card.
pub struct PlainTextContent {
    /// The component's tag; always `plain_text`.
    pub tag: String,
    /// The text itself.
    pub content: String,
}

/// Builds a [`PlainTextContent`].
pub struct PlainTextContentBuilder {
    text: PlainTextContent,
}

impl PlainTextContentBuilder {
    /// The text under construction.
    pub closed spec fn spec_text(&self) -> PlainTextContent {
        self.text
    }

    /// A builder for an empty text.
    pub fn new() -> (r: Self)
        ensures
            r.spec_text().tag@ == "plain_text"@,
            r.spec_text().content@ == Seq::<char>::empty(),
    {
        PlainTextContentBuilder { text: PlainTextContent { tag: "plain_text".to_string(), content: String::new() } }
    }

    /// Sets the text.
    pub fn content(self, content: &str) -> (r: Self)
        ensures
            r.spec_text().tag == self.spec_text().tag,
            r.spec_text().content@ == content@,
    {
        let mut s = self;
        s.text.content = content.to_string();
        s
    }

    /// The text built so far.
    pub fn build(self) -> (r: PlainTextContent)
        ensures
            r == self.spec_text(),
    {
        self.text
    }
}

} // verus!
