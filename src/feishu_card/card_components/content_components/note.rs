use crate::feishu_card::card_components::content_components::image::FeishuCardImage;
use crate::feishu_card::card_components::content_components::plain_text::PlainTextContent;
use crate::feishu_card::icon::FeishuCardTextIcon;
use vstd::prelude::*;

verus! {

/// A note: a line of small icons, images and texts at the foot of a card.
pub struct FeishuCardNote {
    /// The component's tag; always `note`.
    tag: String,
    /// The note's icons, images and texts, in display order.
    elements: Vec<FeishuCardNoteElement>,
}

/// One element of a note.
pub enum FeishuCardNoteElement {
    Icon(FeishuCardTextIcon),
    Image(FeishuCardImage),
    Text(PlainTextContent),
}

impl FeishuCardNote {
    /// The note's tag.
    pub closed spec fn spec_tag(&self) -> Seq<char> {
        self.tag@
    }

    /// The note's elements, in order.
    pub closed spec fn spec_elements(&self) -> Seq<FeishuCardNoteElement> {
        self.elements@
    }

    /// The note's tag.
    pub fn tag(&self) -> (r: &str)
        ensures
            r@ == self.spec_tag(),
    {
        self.tag.as_str()
    }

    /// The note's elements, in order.
    pub fn elements(&self) -> (r: &[FeishuCardNoteElement])
        ensures
            r@ == self.spec_elements(),
    {
        self.elements.as_slice()
    }
}

impl Default for FeishuCardNote {
    /// A note with no elements.
    fn default() -> (r: Self)
        ensures
            r.spec_tag() == "note"@,
            r.spec_elements() == Seq::<FeishuCardNoteElement>::empty(),
    {
        FeishuCardNote { tag: "note".to_string(), elements: Vec::new() }
    }
}

/// Builds a [`FeishuCardNote`] element by element.
pub struct FeishuCardNoteBuilder {
    note: FeishuCardNote,
}

impl FeishuCardNoteBuilder {
    /// The note under construction.
    pub closed spec fn spec_note(&self) -> FeishuCardNote {
        self.note
    }

    /// A builder for a note with no elements.
    pub fn new() -> (r: Self)
        ensures
            r.spec_note().spec_tag() == "note"@,
            r.spec_note().spec_elements() == Seq::<FeishuCardNoteElement>::empty(),
    {
        FeishuCardNoteBuilder { note: FeishuCardNote::default() }
    }

    /// Appends an icon.
    pub fn icon(self, icon: FeishuCardTextIcon) -> (r: Self)
        ensures
            r.spec_note().spec_tag() == self.spec_note().spec_tag(),
            r.spec_note().spec_elements() == self.spec_note().spec_elements().push(
                FeishuCardNoteElement::Icon(icon),
            ),
    {
        let mut s = self;
        s.note.elements.push(FeishuCardNoteElement::Icon(icon));
        s
    }

    /// Appends an image.
    pub fn image(self, image: FeishuCardImage) -> (r: Self)
        ensures
            r.spec_note().spec_tag() == self.spec_note().spec_tag(),
            r.spec_note().spec_elements() == self.spec_note().spec_elements().push(
                FeishuCardNoteElement::Image(image),
            ),
    {
        let mut s = self;
        s.note.elements.push(FeishuCardNoteElement::Image(image));
        s
    }

    /// Appends a text.
    pub fn text(self, text: PlainTextContent) -> (r: Self)
        ensures
            r.spec_note().spec_tag() == self.spec_note().spec_tag(),
            r.spec_note().spec_elements() == self.spec_note().spec_elements().push(
                FeishuCardNoteElement::Text(text),
            ),
    {
        let mut s = self;
        s.note.elements.push(FeishuCardNoteElement::Text(text));
        s
    }

    /// The note built so far.
    pub fn build(self) -> (r: FeishuCardNote)
        ensures
            r == self.spec_note(),
    {
        self.note
    }
}

} // verus!
