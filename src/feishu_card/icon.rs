use vstd::prelude::*;

verus! {

/// A prefix icon for text. Either an icon of the icon library
/// (`standard_icon`, chosen by `token` and tinted by `color`) or a custom
/// image (`custom_icon`, chosen by `img_key`).
pub struct FeishuCardTextIcon {
    /// The kind of icon: `standard_icon` or `custom_icon`.
    pub tag: Option<String>,
    /// The token of a library icon; used with `standard_icon`.
    pub token: Option<String>,
    /// The colour of an outlined or filled library icon; used with `standard_icon`.
    pub color: Option<String>,
    /// The image key of a custom icon; used with `custom_icon`.
    pub img_key: Option<String>,
}

/// The view of an optional string: its characters, when present.
pub open spec fn opt_view(s: Option<String>) -> Option<Seq<char>> {
    match s {
        Some(v) => Some(v@),
        None => None,
    }
}

impl FeishuCardTextIcon {
    /// The icon's four fields as character sequences.
    pub open spec fn spec_fields(&self) -> (
        Option<Seq<char>>,
        Option<Seq<char>>,
        Option<Seq<char>>,
        Option<Seq<char>>,
    ) {
        (opt_view(self.tag), opt_view(self.token), opt_view(self.color), opt_view(self.img_key))
    }
}

/// Builds a [`FeishuCardTextIcon`] field by field.
pub struct FeishuCardTextIconBuilder {
    icon: FeishuCardTextIcon,
}

impl FeishuCardTextIconBuilder {
    /// The icon under construction.
    pub closed spec fn spec_icon(&self) -> FeishuCardTextIcon {
        self.icon
    }

    /// A builder for a library icon with no token, colour or image key.
    pub fn new() -> (r: Self)
        ensures
            r.spec_icon().spec_fields() == (
                Some("standard_icon"@),
                None::<Seq<char>>,
                None::<Seq<char>>,
                None::<Seq<char>>,
            ),
    {
        FeishuCardTextIconBuilder {
            icon: FeishuCardTextIcon {
                tag: Some("standard_icon".to_string()),
                token: None,
                color: None,
                img_key: None,
            },
        }
    }

    /// Sets the kind of icon.
    pub fn tag(self, tag: &str) -> (r: Self)
        ensures
            r.spec_icon().spec_fields() == (
                Some(tag@),
                self.spec_icon().spec_fields().1,
                self.spec_icon().spec_fields().2,
                self.spec_icon().spec_fields().3,
            ),
    {
        let mut s = self;
        s.icon.tag = Some(tag.to_string());
        s
    }

    /// Sets the token of a library icon.
    pub fn token(self, token: &str) -> (r: Self)
        ensures
            r.spec_icon().spec_fields() == (
                self.spec_icon().spec_fields().0,
                Some(token@),
                self.spec_icon().spec_fields().2,
                self.spec_icon().spec_fields().3,
            ),
    {
        let mut s = self;
        s.icon.token = Some(token.to_string());
        s
    }

    /// Sets the colour of a library icon.
    pub fn color(self, color: &str) -> (r: Self)
        ensures
            r.spec_icon().spec_fields() == (
                self.spec_icon().spec_fields().0,
                self.spec_icon().spec_fields().1,
                Some(color@),
                self.spec_icon().spec_fields().3,
            ),
    {
        let mut s = self;
        s.icon.color = Some(color.to_string());
        s
    }

    /// Sets the image key of a custom icon.
    pub fn img_key(self, img_key: &str) -> (r: Self)
        ensures
            r.spec_icon().spec_fields() == (
                self.spec_icon().spec_fields().0,
                self.spec_icon().spec_fields().1,
                self.spec_icon().spec_fields().2,
                Some(img_key@),
            ),
    {
        let mut s = self;
        s.icon.img_key = Some(img_key.to_string());
        s
    }

    /// The icon built so far.
    pub fn build(self) -> (r: FeishuCardTextIcon)
        ensures
            r == self.spec_icon(),
    {
        self.icon
    }
}

} // verus!
