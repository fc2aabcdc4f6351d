use rstreamer::format::Dimentions;
use rstreamer::format::ImageFormat;
use rstreamer::format::AudioEncoding;
use rstreamer::format::SubtitleEncoding;
use rstreamer::format::VideoEncoding;

#[test]
fn has_alpha_true_exactly_for_the_four_alpha_variants() {
    assert!(ImageFormat::LumaA8.has_alpha());
    assert!(ImageFormat::LumaA16.has_alpha());
    assert!(ImageFormat::Rgba8.has_alpha());
    assert!(ImageFormat::Rgba16.has_alpha());

    assert!(!ImageFormat::Luma8.has_alpha());
    assert!(!ImageFormat::Luma16.has_alpha());
    assert!(!ImageFormat::Rgb8.has_alpha());
    assert!(!ImageFormat::Rgb16.has_alpha());
    assert!(!ImageFormat::CMYK8.has_alpha());
    assert!(!ImageFormat::CMYK16.has_alpha());
}

#[test]
fn has_alpha_is_never_inferred_for_vendor_formats() {
    assert!(!ImageFormat::Vendor("argb").has_alpha());
    assert!(!ImageFormat::Vendor("alpha").has_alpha());
    assert!(!ImageFormat::Vendor("").has_alpha());
}

#[test]
fn dimension_order_is_lexicographic_width_then_height() {
    let small = Dimentions { width: 100, height: 900 };
    let wide = Dimentions { width: 200, height: 100 };
    // width decides first, even though `small` is taller
    assert!(small < wide);
    assert!(wide > small);

    let low = Dimentions { width: 100, height: 50 };
    // equal widths fall back to height
    assert!(low < small);

    let again = Dimentions { width: 100, height: 900 };
    assert!(small == again);
    assert!(!(small < again));
    assert!(!(small > again));
}

#[test]
fn vendor_detection_on_encodings() {
    assert!(VideoEncoding::Vendor("x").is_vendor());
    assert!(!VideoEncoding::H264.is_vendor());
    assert!(!VideoEncoding::RAW(ImageFormat::Rgb8).is_vendor());
    assert!(AudioEncoding::Vendor("y").is_vendor());
    assert!(!AudioEncoding::FLAC.is_vendor());
    assert!(SubtitleEncoding::Vendor("z").is_vendor());
    assert!(!SubtitleEncoding::UTF8.is_vendor());
    assert!(ImageFormat::Vendor("v").is_vendor());
    assert!(!ImageFormat::Rgb8.is_vendor());
}
