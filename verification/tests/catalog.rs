use advert_pipeline::advert::{Advert, AdvertDefinition, Align, Case, ImageOutput};
use advert_pipeline::catalog::AdvertCatalog;

fn catalog_png_bytes() -> Vec<u8> {
    let img = image::DynamicImage::ImageRgba8(image::RgbaImage::new(2, 2));
    let mut buf = Vec::new();
    img.write_to(&mut std::io::Cursor::new(&mut buf), image::ImageFormat::Png)
        .unwrap();
    buf
}

fn catalog_advert(prefix: &str) -> Advert {
    let definition = AdvertDefinition {
        image: String::from("base.png"),
        image_width: 2,
        image_height: 2,
        frames: 1,
        text_align: Align::Left,
        text_x: 0,
        text_y: 0,
        text_color: [0, 0, 0, 255],
        text_scale: ab_glyph::PxScale { x: 12.0, y: 12.0 },
        text_case: Case::Default,
        output_format: ImageOutput::Png,
        text_prefix: String::from(prefix),
    };
    Advert::open(definition, &catalog_png_bytes()).unwrap()
}

#[test]
fn lookup_finds_what_was_stored() {
    let mut catalog = AdvertCatalog::new();
    assert!(catalog.add(String::from("banner"), catalog_advert("hello ")));
    assert!(catalog.add(String::from("popup"), catalog_advert("hi ")));
    assert_eq!(catalog.len(), 2);
    assert_eq!(catalog.get("banner").unwrap().text_prefix, "hello ");
    assert_eq!(catalog.get("popup").unwrap().text_prefix, "hi ");
}

#[test]
fn lookup_misses_an_unknown_name() {
    let mut catalog = AdvertCatalog::new();
    assert!(catalog.add(String::from("banner"), catalog_advert("hello ")));
    assert!(catalog.get("missing").is_none());
    assert!(catalog.get("bannerx").is_none());
    assert!(catalog.get("banne").is_none());
}

#[test]
fn a_taken_name_is_refused() {
    let mut catalog = AdvertCatalog::new();
    assert!(catalog.add(String::from("banner"), catalog_advert("first ")));
    assert!(!catalog.add(String::from("banner"), catalog_advert("second ")));
    assert_eq!(catalog.len(), 1);
    assert_eq!(catalog.get("banner").unwrap().text_prefix, "first ");
}
