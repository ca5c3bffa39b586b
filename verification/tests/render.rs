use advert_pipeline::advert::{Advert, AdvertDefinition, Align, Case, ImageOutput};
use advert_pipeline::render::render_location_to_image_sync;

fn render_push_u16(v: &mut Vec<u8>, x: u16) {
    v.extend_from_slice(&x.to_be_bytes());
}

fn render_push_i16(v: &mut Vec<u8>, x: i16) {
    v.extend_from_slice(&x.to_be_bytes());
}

fn render_push_u32(v: &mut Vec<u8>, x: u32) {
    v.extend_from_slice(&x.to_be_bytes());
}

/// A tiny hand-built font: one glyph, a square outline, a fixed
/// advance, and every character mapped to it, so strings lay out with a
/// deterministic nonzero width and drawing leaves visible ink.
fn render_font_bytes() -> Vec<u8> {
    let mut head = Vec::new();
    render_push_u32(&mut head, 0x00010000); // version
    render_push_u32(&mut head, 0); // font revision
    render_push_u32(&mut head, 0); // checksum adjustment
    render_push_u32(&mut head, 0x5F0F3CF5); // magic
    render_push_u16(&mut head, 0); // flags
    render_push_u16(&mut head, 1000); // units per em
    head.extend_from_slice(&[0u8; 8]); // created
    head.extend_from_slice(&[0u8; 8]); // modified
    render_push_i16(&mut head, 0); // x min
    render_push_i16(&mut head, 0); // y min
    render_push_i16(&mut head, 0); // x max
    render_push_i16(&mut head, 0); // y max
    render_push_u16(&mut head, 0); // mac style
    render_push_u16(&mut head, 0); // lowest recommended ppem
    render_push_i16(&mut head, 0); // font direction hint
    render_push_u16(&mut head, 0); // index to location format
    render_push_u16(&mut head, 0); // glyph data format
    assert_eq!(head.len(), 54);

    let mut hhea = Vec::new();
    render_push_u32(&mut hhea, 0x00010000); // version
    render_push_i16(&mut hhea, 800); // ascender
    render_push_i16(&mut hhea, -200); // descender
    render_push_i16(&mut hhea, 0); // line gap
    render_push_u16(&mut hhea, 500); // advance width max
    render_push_i16(&mut hhea, 0); // min left side bearing
    render_push_i16(&mut hhea, 0); // min right side bearing
    render_push_i16(&mut hhea, 0); // x max extent
    render_push_i16(&mut hhea, 1); // caret slope rise
    render_push_i16(&mut hhea, 0); // caret slope run
    render_push_i16(&mut hhea, 0); // caret offset
    for _ in 0..4 {
        render_push_i16(&mut hhea, 0); // reserved
    }
    render_push_i16(&mut hhea, 0); // metric data format
    render_push_u16(&mut hhea, 1); // number of h metrics
    assert_eq!(hhea.len(), 36);

    let mut maxp = Vec::new();
    render_push_u32(&mut maxp, 0x00005000); // version 0.5
    render_push_u16(&mut maxp, 1); // number of glyphs
    assert_eq!(maxp.len(), 6);

    // one long horizontal metric for the one glyph
    let mut hmtx = Vec::new();
    render_push_u16(&mut hmtx, 500); // advance width
    render_push_i16(&mut hmtx, 0); // left side bearing

    // a single square contour from (0, 0) to (500, 500)
    let mut glyf = Vec::new();
    render_push_i16(&mut glyf, 1); // contour count
    render_push_i16(&mut glyf, 0); // x min
    render_push_i16(&mut glyf, 0); // y min
    render_push_i16(&mut glyf, 500); // x max
    render_push_i16(&mut glyf, 500); // y max
    render_push_u16(&mut glyf, 3); // end point of the contour
    render_push_u16(&mut glyf, 0); // instruction length
    glyf.extend_from_slice(&[1, 1, 1, 1]); // four on-curve points
    render_push_i16(&mut glyf, 0); // x deltas
    render_push_i16(&mut glyf, 500);
    render_push_i16(&mut glyf, 0);
    render_push_i16(&mut glyf, -500);
    render_push_i16(&mut glyf, 0); // y deltas
    render_push_i16(&mut glyf, 0);
    render_push_i16(&mut glyf, 500);
    render_push_i16(&mut glyf, 0);
    assert_eq!(glyf.len() % 2, 0);

    // short-format glyph offsets: glyph 0 spans the whole glyf table
    let mut loca = Vec::new();
    render_push_u16(&mut loca, 0);
    render_push_u16(&mut loca, (glyf.len() / 2) as u16);

    let mut font = Vec::new();
    render_push_u32(&mut font, 0x00010000); // sfnt version
    render_push_u16(&mut font, 6); // table count
    render_push_u16(&mut font, 64); // search range
    render_push_u16(&mut font, 2); // entry selector
    render_push_u16(&mut font, 32); // range shift
    let tables: [(&[u8; 4], &Vec<u8>); 6] = [
        (b"glyf", &glyf),
        (b"head", &head),
        (b"hhea", &hhea),
        (b"hmtx", &hmtx),
        (b"loca", &loca),
        (b"maxp", &maxp),
    ];
    let mut offset = 12 + 16 * tables.len() as u32;
    for (tag, data) in tables {
        font.extend_from_slice(tag);
        render_push_u32(&mut font, 0); // checksum, not verified by the parser
        render_push_u32(&mut font, offset);
        render_push_u32(&mut font, data.len() as u32);
        offset += data.len() as u32;
    }
    font.extend_from_slice(&glyf);
    font.extend_from_slice(&head);
    font.extend_from_slice(&hhea);
    font.extend_from_slice(&hmtx);
    font.extend_from_slice(&loca);
    font.extend_from_slice(&maxp);
    font
}

fn render_font() -> ab_glyph::FontVec {
    ab_glyph::FontVec::try_from_vec(render_font_bytes()).unwrap()
}

fn render_png_bytes(w: u32, h: u32) -> Vec<u8> {
    let img = image::DynamicImage::ImageRgba8(image::RgbaImage::from_pixel(
        w,
        h,
        image::Rgba([40, 80, 120, 200]),
    ));
    let mut buf = Vec::new();
    img.write_to(&mut std::io::Cursor::new(&mut buf), image::ImageFormat::Png)
        .unwrap();
    buf
}

fn render_advert(format: ImageOutput, frames: u32, frame_height: u32) -> Advert {
    let definition = AdvertDefinition {
        image: String::from("base.png"),
        image_width: 4,
        image_height: frame_height,
        frames,
        text_align: Align::Center,
        text_x: 2,
        text_y: 0,
        text_color: [255, 255, 255, 255],
        text_scale: ab_glyph::PxScale { x: 8.0, y: 8.0 },
        text_case: Case::Upper,
        output_format: format,
        text_prefix: String::from("singles near "),
    };
    let data = render_png_bytes(4, frames * frame_height);
    Advert::open(definition, &data).unwrap()
}

#[test]
fn drawing_leaves_ink_on_the_image() {
    let definition = AdvertDefinition {
        image: String::from("base.png"),
        image_width: 8,
        image_height: 8,
        frames: 1,
        text_align: Align::Left,
        text_x: 0,
        text_y: 0,
        text_color: [255, 0, 0, 255],
        text_scale: ab_glyph::PxScale { x: 8.0, y: 8.0 },
        text_case: Case::Default,
        output_format: ImageOutput::Png,
        text_prefix: String::from("x"),
    };
    let base = image::Rgba([40, 80, 120, 255]);
    let img = image::DynamicImage::ImageRgba8(image::RgbaImage::from_pixel(8, 8, base));
    let mut data = Vec::new();
    img.write_to(&mut std::io::Cursor::new(&mut data), image::ImageFormat::Png)
        .unwrap();
    let advert = Advert::open(definition, &data).unwrap();
    let font = render_font();
    let bytes = render_location_to_image_sync(&advert, &font, String::new()).unwrap();
    let decoded = image::load_from_memory(&bytes).unwrap().to_rgba8();
    assert!(decoded.pixels().any(|p| *p != base));
}

#[test]
fn an_immeasurably_wide_text_is_refused() {
    let definition = AdvertDefinition {
        image: String::from("base.png"),
        image_width: 4,
        image_height: 4,
        frames: 1,
        text_align: Align::Left,
        text_x: 0,
        text_y: 0,
        text_color: [255, 255, 255, 255],
        text_scale: ab_glyph::PxScale { x: 6.0e8, y: 8.0 },
        text_case: Case::Default,
        output_format: ImageOutput::Png,
        text_prefix: String::from("singles near "),
    };
    let advert = Advert::open(definition, &render_png_bytes(4, 4)).unwrap();
    let font = render_font();
    let result = render_location_to_image_sync(&advert, &font, String::from("Berlin"));
    assert!(matches!(
        result,
        Err(advert_pipeline::render::RenderError::TextTooWide)
    ));
}

#[test]
fn an_image_the_codec_rejects_is_an_encode_failure() {
    // JPEG cannot hold a 70000-pixel-tall image, so encoding must fail.
    let definition = AdvertDefinition {
        image: String::from("base.png"),
        image_width: 1,
        image_height: 70000,
        frames: 1,
        text_align: Align::Left,
        text_x: 0,
        text_y: 0,
        text_color: [255, 255, 255, 255],
        text_scale: ab_glyph::PxScale { x: 8.0, y: 8.0 },
        text_case: Case::Default,
        output_format: ImageOutput::Jpeg,
        text_prefix: String::new(),
    };
    let advert = Advert::open(definition, &render_png_bytes(1, 70000)).unwrap();
    let font = render_font();
    let result = render_location_to_image_sync(&advert, &font, String::new());
    assert!(matches!(
        result,
        Err(advert_pipeline::render::RenderError::EncodeFailed(_))
    ));
}

#[test]
fn rendering_is_deterministic() {
    let advert = render_advert(ImageOutput::Png, 2, 3);
    let font = render_font();
    let first = render_location_to_image_sync(&advert, &font, String::from("Berlin")).unwrap();
    let second = render_location_to_image_sync(&advert, &font, String::from("Berlin")).unwrap();
    assert!(!first.is_empty());
    assert_eq!(first, second);
}

#[test]
fn jpeg_output_drops_the_alpha_channel() {
    let advert = render_advert(ImageOutput::Jpeg, 1, 4);
    let font = render_font();
    let bytes = render_location_to_image_sync(&advert, &font, String::from("Berlin")).unwrap();
    let decoded = image::load_from_memory(&bytes).unwrap();
    assert_eq!(image::guess_format(&bytes).unwrap(), image::ImageFormat::Jpeg);
    assert!(!decoded.color().has_alpha());
    assert_eq!(decoded.color().channel_count(), 3);
}

#[test]
fn png_output_keeps_the_alpha_channel() {
    let advert = render_advert(ImageOutput::Png, 1, 4);
    let font = render_font();
    let bytes = render_location_to_image_sync(&advert, &font, String::from("Berlin")).unwrap();
    let decoded = image::load_from_memory(&bytes).unwrap();
    assert_eq!(image::guess_format(&bytes).unwrap(), image::ImageFormat::Png);
    assert!(decoded.color().has_alpha());
}

#[test]
fn the_output_keeps_the_sprite_sheet_dimensions() {
    let advert = render_advert(ImageOutput::Png, 2, 3);
    let font = render_font();
    let bytes = render_location_to_image_sync(&advert, &font, String::from("Berlin")).unwrap();
    let decoded = image::load_from_memory(&bytes).unwrap();
    assert_eq!(decoded.width(), 4);
    assert_eq!(decoded.height(), 6);
}
