use crate::feishu_card::card_components::content_components::plain_text::PlainTextContent;
use vstd::prelude::*;

verus! {

/// An image in a card.
pub struct FeishuCardImage {
    /// The component's tag; always `img`.
    pub tag: String,
    /// The key of the uploaded image.
    pub img_key: String,
    /// The text shown when the image cannot be.
    pub alt: Option<PlainTextContent>,
}

/// Builds a [`FeishuCardImage`].
pub struct FeishuCardImageBuilder {
    image: FeishuCardImage,
}

impl FeishuCardImageBuilder {
    /// The image under construction.
    pub closed spec fn spec_image(&self) -> FeishuCardImage {
        self.image
    }

    /// A builder for an image with an empty key and no alternative text.
    pub fn new() -> (r: Self)
        ensures
            r.spec_image().tag@ == "img"@,
            r.spec_image().img_key@ == Seq::<char>::empty(),
            r.spec_image().alt is None,
    {
        FeishuCardImageBuilder { image: FeishuCardImage { tag: "img".to_string(), img_key: String::new(), alt: None } }
    }

    /// Sets the image key.
    pub fn img_key(self, img_key: &str) -> (r: Self)
        ensures
            r.spec_image().tag == self.spec_image().tag,
            r.spec_image().img_key@ == img_key@,
            r.spec_image().alt == self.spec_image().alt,
    {
        let mut s = self;
        s.image.img_key = img_key.to_string();
        s
    }

    /// Sets the alternative text.
    pub fn alt(self, alt: PlainTextContent) -> (r: Self)
        ensures
            r.spec_image().tag == self.spec_image().tag,
            r.spec_image().img_key == self.spec_image().img_key,
            r.spec_image().alt == Some(alt),
    {
        let mut s = self;
        s.image.alt = Some(alt);
        s
    }

    /// The image built so far.
    pub fn build(self) -> (r: FeishuCardImage)
        ensures
            r == self.spec_image(),
    {
        self.image
    }
}

} // verus!
