//! Embedded artwork as the facade exchanges it.

use vstd::prelude::*;
use crate::engine::{front_cover_key, picture_model, picture_parts};
use lofty::picture::Picture;

pub use crate::engine::to_lofty_picture;

verus! {

/// The cover type reported for a picture whose type has no name.
pub const UNKNOWN_COVER_TYPE: &'static str = "Unknown";

/// What a picture stored in a tag holds.
pub ghost struct PictureModel {
    /// The name of the picture's type, where the type has one.
    pub cover_key: Option<Seq<char>>,
    pub mime_type: Option<Seq<char>>,
    pub description: Option<Seq<char>>,
    pub data: Seq<u8>,
}

/// The contents of an optional string.
pub open spec fn opt_text(text: Option<String>) -> Option<Seq<char>> {
    match text {
        Some(s) => Some(s@),
        None => None,
    }
}

/// A stored picture, read out field by field.
#[derive(Debug, Clone)]
pub struct PictureParts {
    pub cover_key: Option<String>,
    pub mime_type: Option<String>,
    pub description: Option<String>,
    pub data: Vec<u8>,
}

impl View for PictureParts {
    type V = PictureModel;

    open spec fn view(&self) -> PictureModel {
        PictureModel {
            cover_key: opt_text(self.cover_key),
            mime_type: opt_text(self.mime_type),
            description: opt_text(self.description),
            data: self.data@,
        }
    }
}

/// An artwork item: a cover-type name, an optional MIME type, an optional
/// description and the image bytes.
#[derive(Debug, Clone)]
pub struct MetaPicture {
    pub cover_type: String,
    pub mime_type: Option<String>,
    pub description: Option<String>,
    pub data: Vec<u8>,
}

/// An artwork item as contracts speak of it.
pub ghost struct MetaPictureModel {
    pub cover_type: Seq<char>,
    pub mime_type: Option<Seq<char>>,
    pub description: Option<Seq<char>>,
    pub data: Seq<u8>,
}

impl View for MetaPicture {
    type V = MetaPictureModel;

    open spec fn view(&self) -> MetaPictureModel {
        MetaPictureModel {
            cover_type: self.cover_type@,
            mime_type: opt_text(self.mime_type),
            description: opt_text(self.description),
            data: self.data@,
        }
    }
}

/// The artwork item that stands for a stored picture: its fields, with the
/// cover type `Unknown` where the picture's type has no name.
pub open spec fn spec_item_of(stored: PictureModel) -> MetaPictureModel {
    MetaPictureModel {
        cover_type: match stored.cover_key {
            Some(key) => key,
            None => UNKNOWN_COVER_TYPE@,
        },
        mime_type: stored.mime_type,
        description: stored.description,
        data: stored.data,
    }
}

impl MetaPicture {
    /// A front-cover item with the given MIME type, image bytes and description.
    pub fn new(mime: String, data: Vec<u8>, desc: Option<String>) -> (r: MetaPicture)
        ensures
            r@ == (MetaPictureModel {
                cover_type: "Cover Art (Front)"@,
                mime_type: Some(mime@),
                description: opt_text(desc),
                data: data@,
            }),
    {
        MetaPicture { cover_type: front_cover_key(), mime_type: Some(mime), description: desc, data }
    }
}

/// The artwork item that stands for a stored picture.
pub fn from_lofty_picture(pic: &Picture) -> (r: MetaPicture)
    ensures
        r@ == spec_item_of(picture_model(*pic)),
{
    let parts = picture_parts(pic);
    let cover_type = match parts.cover_key {
        Some(key) => key,
        None => UNKNOWN_COVER_TYPE.to_string(),
    };
    MetaPicture {
        cover_type,
        mime_type: parts.mime_type,
        description: parts.description,
        data: parts.data,
    }
}

/// The artwork items that stand for a tag's pictures, in order; none for an
/// empty list.
pub fn from_lofty_picture_slice(pics: &[Picture]) -> (r: Option<Vec<MetaPicture>>)
    ensures
        r is None <==> pics@.len() == 0,
        r is Some ==> r->0@.len() == pics@.len(),
        r is Some ==> forall|i: int|
            0 <= i < pics@.len() ==> (#[trigger] r->0@[i])@ == spec_item_of(picture_model(pics@[i])),
{
    if pics.len() == 0 {
        return None;
    }
    let mut result: Vec<MetaPicture> = Vec::with_capacity(pics.len());
    let mut i: usize = 0;
    while i < pics.len()
        invariant
            i <= pics@.len(),
            result@.len() == i,
            forall|j: int|
                0 <= j < i ==> (#[trigger] result@[j])@ == spec_item_of(picture_model(pics@[j])),
        decreases pics@.len() - i,
    {
        let item = from_lofty_picture(&pics[i]);
        result.push(item);
        i += 1;
    }
    Some(result)
}

} // verus!
