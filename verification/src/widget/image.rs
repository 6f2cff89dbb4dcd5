//! Image sources and decoded pixels.
use crate::text::{chars_of, join_text};
use std::sync::Arc;
use vstd::prelude::*;

verus! {

/// Decoded RGBA8 pixels of an image.
#[derive(Clone)]
pub struct DecodedImage {
    pub data: Arc<Vec<u8>>,
    pub width: u32,
    pub height: u32,
}

/// How the image fills its bounds (mirrors CSS object-fit).
#[derive(Debug, Clone, Copy, PartialEq, Eq, Structural)]
pub enum ObjectFit {
    /// Stretch to fill (may distort).
    Fill,
    /// Scale uniformly to fit inside bounds (letterbox).
    Contain,
    /// Scale uniformly to cover bounds (may crop).
    Cover,
    /// Do not scale; display at natural size.
    Natural,
}

impl Default for ObjectFit {
    fn default() -> (r: Self)
        ensures
            r == ObjectFit::Contain,
    {
        ObjectFit::Contain
    }
}

/// `s` begins with `prefix`.
pub open spec fn starts_with(s: Seq<char>, prefix: Seq<char>) -> bool {
    prefix.len() <= s.len() && s.take(prefix.len() as int) == prefix
}

fn has_prefix(s: &Vec<char>, prefix: &Vec<char>) -> (r: bool)
    ensures
        r == starts_with(s@, prefix@),
{
    if prefix.len() > s.len() {
        return false;
    }
    let mut i: usize = 0;
    while i < prefix.len()
        invariant
            prefix@.len() <= s@.len(),
            i <= prefix@.len(),
            forall|k: int| 0 <= k < i ==> s@[k] == prefix@[k],
        decreases prefix@.len() - i,
    {
        if s[i] != prefix[i] {
            proof {
                assert(s@.take(prefix@.len() as int)[i as int] != prefix@[i as int]);
            }
            return false;
        }
        i += 1;
    }
    proof {
        assert(s@.take(prefix@.len() as int) =~= prefix@);
    }
    true
}

/// A source is fetched over HTTP when it starts with `http://` or
/// `https://`; any other source is a file path.
pub fn is_remote_source(src: &str) -> (r: bool)
    ensures
        r == (starts_with(src@, "http://"@) || starts_with(src@, "https://"@)),
{
    let s = chars_of(src);
    let http = chars_of("http://");
    let https = chars_of("https://");
    has_prefix(&s, &http) || has_prefix(&s, &https)
}

/// Trusted: `image::load_from_memory` (format guessed from the bytes, or
/// by decoders an application registered with the crate's hooks), then
/// `DynamicImage::into_rgba8`, read back as raw bytes and dimensions; an
/// error is turned into its message with `to_string`.
///
/// Claimed, from the crate's source: an `ImageBuffer` holds at least four
/// bytes for each of its `w * h` RGBA pixels (`ImageBuffer::from_raw`
/// refuses a shorter buffer). Which outcome comes back is left unsaid: the
/// registered hooks are process-wide, so it is not a function of `bytes`
/// alone.
#[verifier::external_body]
fn decode_rgba8(bytes: &[u8]) -> (r: Result<(Vec<u8>, u32, u32), String>)
    ensures
        r matches Ok((data, w, h)) ==> data@.len() >= 4 * w * h,
{
    match image::load_from_memory(bytes) {
        Ok(img) => {
            let rgba = img.into_rgba8();
            let (w, h) = rgba.dimensions();
            Ok((rgba.into_raw(), w, h))
        },
        Err(e) => Err(e.to_string()),
    }
}

/// What follows decoding: the pixels wrapped as a `DecodedImage`, or the
/// decoder's message after `decode: `.
pub fn image_from_rgba8(decoding: Result<(Vec<u8>, u32, u32), String>) -> (r: Result<DecodedImage, String>)
    ensures
        match decoding {
            Ok((data, w, h)) => r is Ok && (*r->Ok_0.data)@ == data@ && r->Ok_0.width == w
                && r->Ok_0.height == h,
            Err(msg) => r is Err && r->Err_0@ == "decode: "@ + msg@,
        },
{
    match decoding {
        Ok((data, width, height)) => Ok(DecodedImage { data: Arc::new(data), width, height }),
        Err(msg) => Err(join_text("decode: ", msg.as_str())),
    }
}

/// Decodes encoded image bytes (PNG, JPEG) into RGBA8 pixels: at least
/// four bytes per pixel, or the decoder's message after `decode: `.
pub fn decode_image(bytes: &[u8]) -> (r: Result<DecodedImage, String>)
    ensures
        r matches Ok(img) ==> (*img.data)@.len() >= 4 * img.width * img.height,
        r matches Err(e) ==> starts_with(e@, "decode: "@),
{
    let decoding = decode_rgba8(bytes);
    let ghost g = decoding;
    let r = image_from_rgba8(decoding);
    proof {
        match g {
            Err(msg) => {
                assert(r->Err_0@.take("decode: "@.len() as int) =~= "decode: "@);
            },
            _ => {},
        }
    }
    r
}

} // verus!
