use rust_ui::widget::svg::{rasterize_svg, svg_image, SvgFailure};

#[test]
fn raster_becomes_image() {
    let img = svg_image(Ok((vec![1, 2, 3, 4], 1, 1))).ok().unwrap();
    assert_eq!(*img.data, vec![1, 2, 3, 4]);
    assert_eq!((img.width, img.height), (1, 1));
}

#[test]
fn failures_become_messages() {
    assert_eq!(svg_image(Err(SvgFailure::Parse("bad".to_string()))).err(), Some("parse SVG: bad".to_string()));
    assert_eq!(svg_image(Err(SvgFailure::Pixmap)).err(), Some("create pixmap".to_string()));
}

#[test]
fn small_document_is_rasterized_at_its_size() {
    let doc = br#"<svg xmlns="http://www.w3.org/2000/svg" width="2" height="3"><rect width="2" height="3" fill="red"/></svg>"#;
    let img = rasterize_svg(doc).ok().unwrap();
    assert_eq!((img.width, img.height), (2, 3));
    assert_eq!(img.data.len(), 2 * 3 * 4);
    assert_eq!(&img.data[0..4], &[255, 0, 0, 255]);
}

#[test]
fn garbage_is_a_parse_error() {
    let e = rasterize_svg(b"this is not svg").err().unwrap();
    assert!(e.starts_with("parse SVG: "), "{e}");
}

#[test]
fn size_below_one_pixel_has_no_pixmap() {
    let doc = br#"<svg xmlns="http://www.w3.org/2000/svg" width="0.5" height="3"></svg>"#;
    assert_eq!(rasterize_svg(doc).err(), Some("create pixmap".to_string()));
}
