//! Display profiles and derived-photo descriptors.
//!
//! A `Profile` is one of a fixed, closed set of display variants derived from
//! a single uploaded image; each maps to exactly one conversion rule and one
//! filename suffix. A `Photo` describes one derived image.

use vstd::prelude::*;

verus! {

/// One of the fixed set of display variants of an uploaded photo.
#[derive(Copy, Clone, PartialEq, Eq, Structural, Debug)]
#[allow(non_camel_case_types)]
pub enum Profile {
    ORIGINAL_JPG,
    SCALE_1600_JPG,
    THUMBNAIL_256_JPG,
}

/// The filename suffix of each profile, as a sequence of characters.
pub open spec fn suffix_spec(p: Profile) -> Seq<char> {
    match p {
        Profile::ORIGINAL_JPG => seq!['o'],
        Profile::SCALE_1600_JPG => seq!['p', '1', '6', '0', '0'],
        Profile::THUMBNAIL_256_JPG => seq!['t', '2', '5', '6'],
    }
}

impl Profile {
    /// The short token that distinguishes this profile in file names.
    pub fn suffix(&self) -> (r: &'static str)
        ensures
            r@ == suffix_spec(*self),
    {
        proof {
            reveal_strlit("o");
            reveal_strlit("p1600");
            reveal_strlit("t256");
        }
        match self {
            Profile::ORIGINAL_JPG => "o",
            Profile::SCALE_1600_JPG => "p1600",
            Profile::THUMBNAIL_256_JPG => "t256",
        }
    }
}

/// The profiles derived from every uploaded photo, in the order their
/// orders are enqueued.
pub open spec fn upload_profiles_spec() -> Seq<Profile> {
    seq![Profile::ORIGINAL_JPG, Profile::SCALE_1600_JPG, Profile::THUMBNAIL_256_JPG]
}

/// The fixed list of profiles produced for an upload.
pub fn upload_profiles() -> (r: Vec<Profile>)
    ensures
        r@ == upload_profiles_spec(),
{
    let mut v: Vec<Profile> = Vec::new();
    v.push(Profile::ORIGINAL_JPG);
    v.push(Profile::SCALE_1600_JPG);
    v.push(Profile::THUMBNAIL_256_JPG);
    proof {
        assert(v@ =~= upload_profiles_spec());
    }
    v
}

/// One derived image: its photo id (shared across the profile siblings),
/// its profile, and its path relative to the live photo root.
#[derive(Clone, Debug)]
pub struct Photo {
    pub id: String,
    pub profile: Profile,
    pub path: String,
}

} // verus!
