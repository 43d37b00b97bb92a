//! The methods that read and fill the clipboard.

use crate::api::ApiHandler;
use crate::api_manager::ApiManager;
use crate::encoding::{base64_decoded, base64_encoded, decode, encodable, encode};
use vstd::prelude::*;

verus! {

/// The registry after the clipboard's methods were bound.
pub open spec fn with_clipboard_api(registry: Map<Seq<char>, ApiHandler>) -> Map<
    Seq<char>,
    ApiHandler,
> {
    registry.insert("clipboard.set_text"@, ApiHandler::ClipboardSetText).insert(
        "clipboard.get_text"@,
        ApiHandler::ClipboardGetText,
    ).insert("clipboard.clear"@, ApiHandler::ClipboardClear).insert(
        "clipboard.set_image"@,
        ApiHandler::ClipboardSetImage,
    ).insert("clipboard.get_image"@, ApiHandler::ClipboardGetImage)
}

/// Binds the clipboard's methods.
pub fn clipboard_api(api: &mut ApiManager<ApiHandler>)
    ensures
        final(api)@ == with_clipboard_api(old(api)@),
{
    api.register_api("clipboard.set_text", ApiHandler::ClipboardSetText);
    api.register_api("clipboard.get_text", ApiHandler::ClipboardGetText);
    api.register_api("clipboard.clear", ApiHandler::ClipboardClear);
    api.register_api("clipboard.set_image", ApiHandler::ClipboardSetImage);
    api.register_api("clipboard.get_image", ApiHandler::ClipboardGetImage);
}

/// An image as it travels in a payload: its pixels in base64.
#[derive(Debug, Clone, PartialEq, Eq)]
pub struct ClipboardImage {
    pub width: usize,
    pub height: usize,
    pub data: String,
}

/// An image as the clipboard holds it: its pixels as bytes.
#[derive(Debug, Clone, PartialEq, Eq)]
pub struct ClipboardPixels {
    pub width: usize,
    pub height: usize,
    pub bytes: Vec<u8>,
}

impl ClipboardImage {
    /// The image that these pixels make in a payload: the same width and
    /// height, and the bytes in base64. There is none where the bytes are
    /// too many to be written so.
    pub fn from_pixels(width: usize, height: usize, bytes: &[u8]) -> (image: Option<ClipboardImage>)
        ensures
            image is Some <==> encodable(bytes@.len()),
            image matches Some(made) ==> made.width == width && made.height == height
                && made.data@ == base64_encoded(bytes@),
    {
        match encode(bytes) {
            Some(data) => Some(ClipboardImage { width, height, data }),
            None => None,
        }
    }

    /// The pixels of this image as bytes, where its data is base64.
    pub fn to_pixels(&self) -> (pixels: Option<ClipboardPixels>)
        ensures
            match pixels {
                Some(found) => found.width == self.width && found.height == self.height
                    && base64_decoded(self.data@) == Some(found.bytes@),
                None => base64_decoded(self.data@) is None,
            },
    {
        match decode(self.data.as_str()) {
            Some(bytes) => Some(ClipboardPixels { width: self.width, height: self.height, bytes }),
            None => None,
        }
    }
}

} // verus!
