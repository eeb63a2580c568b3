use onsen_compo::analyses::default_direction;
use onsen_compo::analyses::default_order_by;
use onsen_compo::analyses::select_skip;
use onsen_compo::analyses::SortKey;
use onsen_compo::comments::default_limit;
use onsen_compo::image_path::ImagePath;
use onsen_compo::template::lookup_html_formula;
use onsen_compo::web::bearer_token;
use onsen_compo::web::read_content_length;
use onsen_compo::web::upload_too_large;
use onsen_compo::web::upload_too_small;
use onsen_compo::web::SaveUploadedFileOptions;

#[test]
fn it_reads_a_numeric_content_length() {
    assert_eq!(read_content_length("0"), Some(0));
    assert_eq!(read_content_length("123456"), Some(123456));
    assert_eq!(read_content_length("18446744073709551615"), Some(u64::MAX));
}

#[test]
fn it_rejects_a_malformed_content_length() {
    assert_eq!(read_content_length(""), None);
    assert_eq!(read_content_length("12a"), None);
    assert_eq!(read_content_length("-1"), None);
    assert_eq!(read_content_length(" 12"), None);
    assert_eq!(read_content_length("18446744073709551616"), None);
}

#[test]
fn it_takes_the_token_after_the_first_space() {
    assert_eq!(bearer_token("Bearer abc.def"), Some("abc.def".to_string()));
    assert_eq!(bearer_token("Bearer a b"), Some("a b".to_string()));
    assert_eq!(bearer_token("Bearer "), Some(String::new()));
    assert_eq!(bearer_token("abc"), None);
    assert_eq!(bearer_token(""), None);
}

#[test]
fn it_bounds_upload_sizes() {
    let options = SaveUploadedFileOptions {
        directory: "/tmp",
        path: "x.jpg",
        bytes_min: Some(10),
        bytes_max: Some(100),
    };
    assert!(upload_too_small(9, &options));
    assert!(!upload_too_small(10, &options));
    assert!(!upload_too_large(100, &options));
    assert!(upload_too_large(101, &options));

    let unbounded = SaveUploadedFileOptions {
        directory: "/tmp",
        path: "x.jpg",
        bytes_min: None,
        bytes_max: None,
    };
    assert!(!upload_too_small(0, &unbounded));
    assert!(!upload_too_large(usize::MAX, &unbounded));
}

#[test]
fn it_looks_up_html_formulas() {
    assert_eq!(lookup_html_formula("Na"), "Na<sup>+</sup>");
    assert_eq!(lookup_html_formula("HCO3"), "HCO<sub>3</sub><sup>-</sup>");
    assert_eq!(lookup_html_formula("Cr"), "Cr");
    assert_eq!(lookup_html_formula("Xx"), "Unknown");
    assert_eq!(lookup_html_formula(""), "Unknown");
}

#[test]
fn it_names_image_files_by_subtype() {
    let jpeg = ImagePath {
        name: "p1".to_string(),
        mimetype: "jpeg".to_string(),
        dirname: Some("/data/comments/upload".to_string()),
    };
    assert_eq!(jpeg.extension_str(), Some("jpg"));
    assert_eq!(jpeg.filename(), Some("p1.jpg".to_string()));
    assert_eq!(
        jpeg.filename_full(),
        Some("/data/comments/upload/p1.jpg".to_string())
    );

    let png = ImagePath {
        name: "p2".to_string(),
        mimetype: "png".to_string(),
        dirname: None,
    };
    assert_eq!(png.extension_str(), Some("png"));
    assert_eq!(png.filename_full(), Some("./p2.png".to_string()));

    let gif = ImagePath {
        name: "p3".to_string(),
        mimetype: "gif".to_string(),
        dirname: None,
    };
    assert_eq!(gif.extension_str(), None);
    assert_eq!(gif.filename(), None);
    assert_eq!(gif.filename_full(), None);
}

#[test]
fn it_defaults_the_listing_options() {
    assert_eq!(onsen_compo::analyses::default_limit(), 20);
    assert_eq!(default_limit(), 20);
    assert_eq!(default_order_by(), SortKey::LastModified);
    assert_eq!(default_direction(), -1);
}

#[test]
fn it_computes_the_paging_offset() {
    assert_eq!(select_skip(0, 20), 0);
    assert_eq!(select_skip(3, 20), 60);
}
