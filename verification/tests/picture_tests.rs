use imgconv::has_alpha;
use imgconv::normalize_for_format;
use imgconv::ColorKind;
use imgconv::Picture;
use imgconv::TargetFormat;

fn small_rgba_image() -> image::DynamicImage {
    let buf = image::RgbaImage::from_pixel(2, 2, image::Rgba([10, 20, 30, 128]));
    image::DynamicImage::ImageRgba8(buf)
}

#[test]
fn jpeg_target_strips_alpha_channel() {
    let p = Picture { img: small_rgba_image(), color: ColorKind::Rgba8 };
    let r = normalize_for_format(p, TargetFormat::Jpeg);
    assert_eq!(r.color, ColorKind::Rgb8);
    assert!(!has_alpha(r.color));
    assert_eq!(r.img.color(), image::ColorType::Rgb8);
    assert!(!r.img.color().has_alpha());
}

#[test]
fn jpeg_target_flattens_luma_to_rgb() {
    let buf = image::GrayImage::from_pixel(3, 1, image::Luma([200]));
    let p = Picture { img: image::DynamicImage::ImageLuma8(buf), color: ColorKind::L8 };
    let r = normalize_for_format(p, TargetFormat::Jpeg);
    assert_eq!(r.color, ColorKind::Rgb8);
    assert_eq!(r.img.color(), image::ColorType::Rgb8);
}

#[test]
fn other_targets_leave_the_image_untouched() {
    let img = small_rgba_image();
    let p = Picture { img: img.clone(), color: ColorKind::Rgba8 };
    let r = normalize_for_format(p, TargetFormat::Png);
    assert_eq!(r.color, ColorKind::Rgba8);
    assert_eq!(r.img, img);

    let p = Picture { img: img.clone(), color: ColorKind::Rgba8 };
    let r = normalize_for_format(p, TargetFormat::WebP);
    assert_eq!(r.color, ColorKind::Rgba8);
    assert_eq!(r.img, img);
}

#[test]
fn alpha_is_reported_exactly_for_alpha_layouts() {
    assert!(!has_alpha(ColorKind::L8));
    assert!(has_alpha(ColorKind::La8));
    assert!(!has_alpha(ColorKind::Rgb8));
    assert!(has_alpha(ColorKind::Rgba8));
    assert!(!has_alpha(ColorKind::L16));
    assert!(has_alpha(ColorKind::La16));
    assert!(!has_alpha(ColorKind::Rgb16));
    assert!(has_alpha(ColorKind::Rgba16));
    assert!(!has_alpha(ColorKind::Rgb32F));
    assert!(has_alpha(ColorKind::Rgba32F));
}

#[test]
fn color_kinds_match_the_image_crates_alpha_report() {
    let pairs = vec![
        (ColorKind::L8, image::ColorType::L8),
        (ColorKind::La8, image::ColorType::La8),
        (ColorKind::Rgb8, image::ColorType::Rgb8),
        (ColorKind::Rgba8, image::ColorType::Rgba8),
        (ColorKind::L16, image::ColorType::L16),
        (ColorKind::La16, image::ColorType::La16),
        (ColorKind::Rgb16, image::ColorType::Rgb16),
        (ColorKind::Rgba16, image::ColorType::Rgba16),
        (ColorKind::Rgb32F, image::ColorType::Rgb32F),
        (ColorKind::Rgba32F, image::ColorType::Rgba32F),
    ];
    for (kind, color) in pairs {
        assert_eq!(has_alpha(kind), color.has_alpha());
    }
}
