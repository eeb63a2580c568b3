use onsen_compo::comment_photos::ConvertRule;
use onsen_compo::imaging::DecodedImage;
use onsen_compo::comment_photos::ResizeMethod;
use onsen_compo::imaging::Filter;
use onsen_compo::imaging::OutputFormat;
use onsen_compo::photo::Profile;

#[test]
fn it_maps_each_profile_to_its_rule() {
    let original = ConvertRule::from_profile(Profile::ORIGINAL_JPG);
    assert_eq!(original.resize, None);
    assert_eq!(original.format, OutputFormat::Jpeg);

    let scaled = ConvertRule::from_profile(Profile::SCALE_1600_JPG);
    assert_eq!(
        scaled.resize,
        Some(ResizeMethod::Scale(1600, 1200, Filter::CatmullRom))
    );
    assert_eq!(scaled.format, OutputFormat::Jpeg);

    let thumbnail = ConvertRule::from_profile(Profile::THUMBNAIL_256_JPG);
    assert_eq!(
        thumbnail.resize,
        Some(ResizeMethod::Fill(256, 256, Filter::CatmullRom))
    );
    assert_eq!(thumbnail.format, OutputFormat::Jpeg);
}

#[test]
fn it_scales_a_matching_aspect_source_to_the_exact_box() {
    let source = DecodedImage::new(image::DynamicImage::new_rgb8(4000, 3000));
    let rule = ConvertRule::from_profile(Profile::SCALE_1600_JPG);
    let out = rule.convert(&source);
    assert_eq!((out.width(), out.height()), (1600, 1200));
}

#[test]
fn it_scales_a_portrait_source_within_the_box() {
    let source = DecodedImage::new(image::DynamicImage::new_rgb8(3000, 4000));
    let rule = ConvertRule::from_profile(Profile::SCALE_1600_JPG);
    let out = rule.convert(&source);
    assert_eq!((out.width(), out.height()), (900, 1200));
}

#[test]
fn it_fills_the_thumbnail_box_exactly_by_cropping() {
    let source = DecodedImage::new(image::DynamicImage::new_rgb8(4000, 3000));
    let rule = ConvertRule::from_profile(Profile::THUMBNAIL_256_JPG);
    let out = rule.convert(&source);
    assert_eq!((out.width(), out.height()), (256, 256));
}

#[test]
fn it_keeps_the_original_untouched() {
    let source = DecodedImage::new(image::DynamicImage::new_rgb8(123, 77));
    let rule = ConvertRule::from_profile(Profile::ORIGINAL_JPG);
    let out = rule.convert(&source);
    assert_eq!((out.width(), out.height()), (123, 77));
    let inner = out.into_inner();
    assert_eq!((inner.width(), inner.height()), (123, 77));
}
