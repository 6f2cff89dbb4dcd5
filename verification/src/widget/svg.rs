//! SVG documents rasterized into RGBA8 pixels at their own size.
use crate::text::join_text;
use crate::widget::image::{starts_with, DecodedImage};
use std::sync::Arc;
use vstd::prelude::*;

verus! {

/// Why an SVG document gave no pixels.
#[derive(Debug, Clone)]
pub enum SvgFailure {
    /// The document did not parse; the parser's message.
    Parse(String),
    /// No pixel buffer of the document's size could be made (a size that
    /// truncates to zero pixels, or one too large).
    Pixmap,
}

/// Trusted: `resvg::usvg::Tree::from_data` with the default options, the
/// tree's size truncated to whole pixels, `resvg::tiny_skia::Pixmap::new` of
/// that size and `resvg::render` into it with the identity transform; the
/// pixels are read back with `Pixmap::data`. A parse error becomes its
/// message (`to_string`), and a pixmap that cannot be made is `Pixmap`.
///
/// Claimed, from tiny-skia's source: a pixmap exists only for a width and a
/// height above zero, and holds four bytes per pixel. Which outcome comes
/// back is left unsaid: the default options let the parser read images that
/// the document names from disk, so it is not a function of `bytes` alone.
#[verifier::external_body]
fn rasterize(bytes: &[u8]) -> (r: Result<(Vec<u8>, u32, u32), SvgFailure>)
    ensures
        r matches Ok((data, w, h)) ==> w > 0 && h > 0 && data@.len() == 4 * w * h,
{
    let tree = match resvg::usvg::Tree::from_data(bytes, &Default::default()) {
        Ok(tree) => tree,
        Err(e) => return Err(SvgFailure::Parse(e.to_string())),
    };
    let (w, h) = (tree.size().width() as u32, tree.size().height() as u32);
    let Some(mut pixmap) = resvg::tiny_skia::Pixmap::new(w, h) else { return Err(SvgFailure::Pixmap) };
    resvg::render(&tree, resvg::tiny_skia::Transform::identity(), &mut pixmap.as_mut());
    Ok((pixmap.data().to_vec(), w, h))
}

/// What follows rasterizing: the pixels wrapped as a `DecodedImage`, or the
/// failure as a message (`parse SVG: ` and the parser's message, or
/// `create pixmap`).
pub fn svg_image(raster: Result<(Vec<u8>, u32, u32), SvgFailure>) -> (r: Result<DecodedImage, String>)
    ensures
        match raster {
            Ok((data, w, h)) => r is Ok && (*r->Ok_0.data)@ == data@ && r->Ok_0.width == w
                && r->Ok_0.height == h,
            Err(SvgFailure::Parse(msg)) => r is Err && r->Err_0@ == "parse SVG: "@ + msg@,
            Err(SvgFailure::Pixmap) => r is Err && r->Err_0@ == "create pixmap"@,
        },
{
    match raster {
        Ok((data, width, height)) => Ok(DecodedImage { data: Arc::new(data), width, height }),
        Err(SvgFailure::Parse(msg)) => Err(join_text("parse SVG: ", msg.as_str())),
        Err(SvgFailure::Pixmap) => Err("create pixmap".to_owned()),
    }
}

/// Rasterizes the SVG document `bytes` at its own size.
pub fn rasterize_svg(bytes: &[u8]) -> (r: Result<DecodedImage, String>)
    ensures
        r matches Ok(img) ==> img.width > 0 && img.height > 0 && (*img.data)@.len() == 4
            * img.width * img.height,
        r matches Err(e) ==> starts_with(e@, "parse SVG: "@) || e@ == "create pixmap"@,
{
    let raster = rasterize(bytes);
    let ghost g = raster;
    let r = svg_image(raster);
    proof {
        match g {
            Err(SvgFailure::Parse(msg)) => {
                assert(r->Err_0@.take("parse SVG: "@.len() as int) =~= "parse SVG: "@);
            },
            _ => {},
        }
    }
    r
}

} // verus!
