use onsen_compo::comment_photos::delete;
use onsen_compo::comment_photos::PathError;
use onsen_compo::comment_photos::PhotoPath;
use onsen_compo::photo::Photo;
use onsen_compo::photo::Profile;

fn group_photos() -> Vec<Photo> {
    let pp = PhotoPath {
        analysis: "a1".to_string(),
        comment: "c1".to_string(),
        id: "p1".to_string(),
    };
    vec![
        Photo {
            id: "p1".to_string(),
            profile: Profile::ORIGINAL_JPG,
            path: pp.as_path(&Profile::ORIGINAL_JPG),
        },
        Photo {
            id: "p1".to_string(),
            profile: Profile::SCALE_1600_JPG,
            path: pp.as_path(&Profile::SCALE_1600_JPG),
        },
        Photo {
            id: "p1".to_string(),
            profile: Profile::THUMBNAIL_256_JPG,
            path: pp.as_path(&Profile::THUMBNAIL_256_JPG),
        },
    ]
}

#[test]
fn it_moves_the_group_directory_to_the_mirrored_trash_path() {
    let plan = delete(&group_photos()).unwrap().unwrap();
    assert_eq!(plan.from, "/data/comments/images/a1/c1/p1");
    assert_eq!(plan.to, "/data/comments/images_deleted/a1/c1/p1");
}

#[test]
fn it_uses_any_member_of_the_group() {
    let mut photos = group_photos();
    photos.rotate_left(1);
    let plan = delete(&photos).unwrap().unwrap();
    assert_eq!(plan.from, "/data/comments/images/a1/c1/p1");
    assert_eq!(plan.to, "/data/comments/images_deleted/a1/c1/p1");
}

#[test]
fn it_succeeds_and_does_nothing_for_an_empty_group() {
    let plan = delete(&Vec::new()).unwrap();
    assert!(plan.is_none());
}

#[test]
fn it_rejects_a_group_whose_path_does_not_decode() {
    let photos = vec![Photo {
        id: "p1".to_string(),
        profile: Profile::ORIGINAL_JPG,
        path: "a/b".to_string(),
    }];
    assert_eq!(delete(&photos).unwrap_err(), PathError::MalformedPath);
}
