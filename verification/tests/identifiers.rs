use onsen_compo::comment_photos::CommentPhotoIdGenerator;
use onsen_compo::comments::CommentIdGenerator;
use onsen_compo::identifier::ascii_lowercase;
use onsen_compo::identifier::Generate;
use onsen_compo::identifier::IdGenerator;

fn is_lower_crockford(c: char) -> bool {
    "0123456789abcdefghjkmnpqrstvwxyz".contains(c)
}

#[test]
fn it_generates_a_path_safe_photo_id() {
    let id = CommentPhotoIdGenerator::new("a1", "holiday.jpg").generate();
    assert_eq!(id.len(), 13);
    assert!(id.chars().all(is_lower_crockford));
    assert!(!id.contains('/'));
}

#[test]
fn it_generates_a_path_safe_comment_id() {
    let id = CommentIdGenerator::new("a1", "alice").generate();
    assert_eq!(id.len(), 13);
    assert!(id.chars().all(is_lower_crockford));
}

#[test]
fn it_is_deterministic_for_one_generator() {
    let generator = CommentPhotoIdGenerator::new("a1", "holiday.jpg");
    assert_eq!(generator.generate(), generator.generate());
}

#[test]
fn it_generates_from_a_plain_tuple() {
    let id = IdGenerator::new(("left".to_string(), "right".to_string())).generate();
    assert_eq!(id.len(), 13);
    assert!(id.chars().all(is_lower_crockford));
}

#[test]
fn it_lowercases_ascii_letters_only() {
    assert_eq!(ascii_lowercase("AbC0-Z"), "abc0-z");
    assert_eq!(ascii_lowercase(""), "");
    assert_eq!(ascii_lowercase("0189ABXYZ"), "0189abxyz");
}
