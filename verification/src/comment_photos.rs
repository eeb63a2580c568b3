//! The reversible path codec that joins the photo subsystems.
//!
//! Every derived photo lives at `owner/group/photoId/<suffix>.jpg` relative to
//! a storage root. `PhotoPath` encodes an (owner, group, photo id) triple into
//! that layout and decodes it back from the last four path segments; the
//! round trip is proved in [`lemma_encode_decode_round_trip`].

use vstd::prelude::*;
use vstd::string::StringExecFns;

use crate::imaging::DecodedImage;
use crate::imaging::Filter;
use crate::imaging::fill_fits;
use crate::imaging::OutputFormat;
use crate::photo::Photo;
use crate::photo::Profile;
use crate::photo::suffix_spec;
use crate::photo::upload_profiles;
use crate::photo::upload_profiles_spec;
use crate::identifier::Generate;
use crate::identifier::IdGenerator;
use crate::text::string_to_chars;
use crate::text::string_from_chars;

verus! {

/// Errors of the path codec: the path does not decode to the expected triple.
#[derive(Clone, Copy, PartialEq, Eq, Structural, Debug)]
pub enum PathError {
    MalformedPath,
}

/// True when no character of `s` is the path separator.
pub open spec fn no_sep(s: Seq<char>) -> bool {
    forall|i: int| 0 <= i < s.len() ==> s[i] != '/'
}

/// A usable path segment: nonempty and free of separators.
pub open spec fn valid_segment(s: Seq<char>) -> bool {
    s.len() > 0 && no_sep(s)
}

/// Length of the maximal separator-free prefix of `s`.
pub open spec fn seg_prefix_len(s: Seq<char>) -> int
    decreases s.len(),
{
    if s.len() == 0 || s[0] == '/' {
        0
    } else {
        1 + seg_prefix_len(s.drop_first())
    }
}

pub proof fn lemma_seg_prefix_len_bounds(s: Seq<char>)
    ensures
        0 <= seg_prefix_len(s) <= s.len(),
        s.len() > 0 && s[0] != '/' ==> seg_prefix_len(s) >= 1,
    decreases s.len(),
{
    if s.len() > 0 && s[0] != '/' {
        lemma_seg_prefix_len_bounds(s.drop_first());
    }
}

/// `seg_prefix_len` is pinned down by its characteristic properties.
pub proof fn lemma_seg_prefix_len_is(s: Seq<char>, n: int)
    requires
        0 <= n <= s.len(),
        forall|k: int| 0 <= k < n ==> s[k] != '/',
        n == s.len() || s[n] == '/',
    ensures
        seg_prefix_len(s) == n,
    decreases n,
{
    if n > 0 {
        lemma_seg_prefix_len_is(s.drop_first(), n - 1);
    }
}

/// The maximal separator-free, nonempty runs of `s`, in order: the path
/// segments, with empty segments (repeated separators) dropped.
pub open spec fn segments_of(s: Seq<char>) -> Seq<Seq<char>>
    decreases s.len(),
    via segments_of_decreases
{
    if s.len() == 0 {
        Seq::empty()
    } else if s[0] == '/' {
        segments_of(s.drop_first())
    } else {
        seq![s.take(seg_prefix_len(s))] + segments_of(s.skip(seg_prefix_len(s)))
    }
}

#[via_fn]
proof fn segments_of_decreases(s: Seq<char>) {
    lemma_seg_prefix_len_bounds(s);
}

/// Splitting off one leading segment.
pub proof fn lemma_segments_append(a: Seq<char>, rest: Seq<char>)
    requires
        valid_segment(a),
    ensures
        segments_of(a + seq!['/'] + rest) == seq![a] + segments_of(rest),
{
    let s = a + seq!['/'] + rest;
    assert(s.len() > 0);
    assert(s[0] == a[0]);
    assert(s[0] != '/');
    assert forall|k: int| 0 <= k < a.len() implies s[k] != '/' by {
        assert(s[k] == a[k]);
    }
    assert(s[a.len() as int] == '/');
    lemma_seg_prefix_len_is(s, a.len() as int);
    assert(segments_of(s) == seq![s.take(a.len() as int)] + segments_of(s.skip(a.len() as int)));
    assert(s.take(a.len() as int) =~= a);
    let tail = s.skip(a.len() as int);
    assert(tail[0] == '/');
    assert(segments_of(tail) == segments_of(tail.drop_first()));
    assert(tail.drop_first() =~= rest);
    assert(segments_of(s) =~= seq![a] + segments_of(rest));
}

/// A single valid segment is its own segment list.
pub proof fn lemma_segments_single(a: Seq<char>)
    requires
        valid_segment(a),
    ensures
        segments_of(a) == seq![a],
{
    assert(a[0] != '/');
    lemma_seg_prefix_len_is(a, a.len() as int);
    assert(segments_of(a) == seq![a.take(a.len() as int)] + segments_of(a.skip(a.len() as int)));
    assert(a.take(a.len() as int) =~= a);
    assert(a.skip(a.len() as int) =~= Seq::<char>::empty());
    assert(segments_of(Seq::<char>::empty()) == Seq::<Seq<char>>::empty());
    assert(segments_of(a) =~= seq![a]);
}

/// The `.jpg` file extension shared by every profile variant.
pub open spec fn jpg_extension() -> Seq<char> {
    seq!['.', 'j', 'p', 'g']
}

/// The filename of one profile variant: `<suffix>.jpg`.
pub open spec fn variant_filename(p: Profile) -> Seq<char> {
    suffix_spec(p) + jpg_extension()
}

/// The encoded relative path `owner/group/photoId/<suffix>.jpg`.
pub open spec fn encoded_path(a: Seq<char>, c: Seq<char>, id: Seq<char>, p: Profile) -> Seq<char> {
    a + seq!['/'] + c + seq!['/'] + id + seq!['/'] + variant_filename(p)
}

/// The directory holding all profile variants of one photo.
pub open spec fn directory_path(a: Seq<char>, c: Seq<char>, id: Seq<char>) -> Seq<char> {
    a + seq!['/'] + c + seq!['/'] + id
}

/// What `decode` recovers from a path: the last three segments before the
/// filename, or nothing when fewer than four segments exist.
pub open spec fn decode_spec(s: Seq<char>) -> Option<(Seq<char>, Seq<char>, Seq<char>)> {
    let segs = segments_of(s);
    if segs.len() >= 4 {
        Some((segs[segs.len() - 4], segs[segs.len() - 3], segs[segs.len() - 2]))
    } else {
        None
    }
}

proof fn lemma_filename_valid(p: Profile)
    ensures
        valid_segment(variant_filename(p)),
{
    let f = variant_filename(p);
    match p {
        Profile::ORIGINAL_JPG => {
            assert forall|i: int| 0 <= i < f.len() implies f[i] != '/' by {
                assert(f =~= seq!['o', '.', 'j', 'p', 'g']);
            }
        },
        Profile::SCALE_1600_JPG => {
            assert forall|i: int| 0 <= i < f.len() implies f[i] != '/' by {
                assert(f =~= seq!['p', '1', '6', '0', '0', '.', 'j', 'p', 'g']);
            }
        },
        Profile::THUMBNAIL_256_JPG => {
            assert forall|i: int| 0 <= i < f.len() implies f[i] != '/' by {
                assert(f =~= seq!['t', '2', '5', '6', '.', 'j', 'p', 'g']);
            }
        },
    }
}

/// Round trip of the codec: decoding an encoded path recovers the triple,
/// whatever the profile, for all separator-free nonempty segments.
pub proof fn lemma_encode_decode_round_trip(a: Seq<char>, c: Seq<char>, id: Seq<char>, p: Profile)
    requires
        valid_segment(a),
        valid_segment(c),
        valid_segment(id),
    ensures
        decode_spec(encoded_path(a, c, id, p)) == Some((a, c, id)),
{
    let f = variant_filename(p);
    lemma_filename_valid(p);
    let r2 = id + seq!['/'] + f;
    let r1 = c + seq!['/'] + r2;
    assert(encoded_path(a, c, id, p) =~= a + seq!['/'] + r1);
    lemma_segments_append(a, r1);
    lemma_segments_append(c, r2);
    lemma_segments_append(id, f);
    lemma_segments_single(f);
    assert(segments_of(encoded_path(a, c, id, p)) =~= seq![a, c, id, f]);
}

/// The logical (owner, group, photo id) triple behind a photo path. The
/// `analysis` field is the owning record id and `comment` the comment id.
#[derive(Clone, Debug)]
pub struct PhotoPath {
    pub analysis: String,
    pub comment: String,
    pub id: String,
}

impl PhotoPath {
    /// The relative path of one profile variant of this photo.
    pub fn as_path(&self, profile: &Profile) -> (r: String)
        ensures
            r@ == encoded_path(self.analysis@, self.comment@, self.id@, *profile),
    {
        proof {
            reveal_strlit("/");
            reveal_strlit(".jpg");
        }
        let mut r = self.analysis.clone();
        r.append("/");
        r.append(self.comment.as_str());
        r.append("/");
        r.append(self.id.as_str());
        r.append("/");
        r.append(profile.suffix());
        r.append(".jpg");
        proof {
            assert("/"@ =~= seq!['/']);
            assert(".jpg"@ =~= jpg_extension());
            assert(r@ =~= encoded_path(self.analysis@, self.comment@, self.id@, *profile));
        }
        r
    }

    /// The directory containing all profile variants of this photo.
    pub fn directory(&self) -> (r: String)
        ensures
            r@ == directory_path(self.analysis@, self.comment@, self.id@),
    {
        proof {
            reveal_strlit("/");
        }
        let mut r = self.analysis.clone();
        r.append("/");
        r.append(self.comment.as_str());
        r.append("/");
        r.append(self.id.as_str());
        proof {
            assert("/"@ =~= seq!['/']);
            assert(r@ =~= directory_path(self.analysis@, self.comment@, self.id@));
        }
        r
    }

    /// Recover the triple from a relative photo path: the last three
    /// segments before the filename. Fails exactly when fewer than four
    /// segments are present.
    pub fn decode(path: &str) -> (r: Result<PhotoPath, PathError>)
        ensures
            match r {
                Ok(pp) => decode_spec(path@) == Some((pp.analysis@, pp.comment@, pp.id@)),
                Err(e) => decode_spec(path@) is None && e == PathError::MalformedPath,
            },
    {
        let chars = string_to_chars(path);
        let segs = split_segments(&chars, 0);
        proof {
            assert(chars@.skip(0) =~= path@);
        }
        let n = segs.len();
        if n < 4 {
            Err(PathError::MalformedPath)
        } else {
            let pp = PhotoPath {
                analysis: string_from_chars(&segs[n - 4]),
                comment: string_from_chars(&segs[n - 3]),
                id: string_from_chars(&segs[n - 2]),
            };
            proof {
                assert(seg_views(segs@)[n - 4] == segs@[n - 4]@);
                assert(seg_views(segs@)[n - 3] == segs@[n - 3]@);
                assert(seg_views(segs@)[n - 2] == segs@[n - 2]@);
            }
            Ok(pp)
        }
    }
}

/// The queue directory holding one file per pending order.
pub const DIRECTORY_ORDER: &'static str = "/data/comments/order";

/// The live root under which converted photos are written.
pub const DIRECTORY_UPLOAD: &'static str = "/data/comments/images";

/// The trash root that soft deletion moves photo groups to.
pub const DIRECTORY_DELETED: &'static str = "/data/comments/images_deleted";

/// How an image is resized before it is re-encoded.
#[derive(Clone, Copy, PartialEq, Eq, Structural, Debug)]
pub enum ResizeMethod {
    /// Keep the aspect ratio and fit both edges within the box.
    Scale(u32, u32, Filter),
    /// Keep the aspect ratio and fill the box exactly, cropping overflow.
    Fill(u32, u32, Filter),
}

/// The transform policy of one profile: an optional resize, then an encode.
#[derive(Clone, Copy, PartialEq, Eq, Structural, Debug)]
pub struct ConvertRule {
    pub resize: Option<ResizeMethod>,
    pub format: OutputFormat,
}

/// Resize bounds never degenerate to zero.
pub open spec fn rule_wf(rule: ConvertRule) -> bool {
    match rule.resize {
        Some(ResizeMethod::Scale(w, h, _)) => w >= 1 && h >= 1,
        Some(ResizeMethod::Fill(w, h, _)) => w >= 1 && h >= 1,
        None => true,
    }
}

/// The fixed table mapping each profile to its conversion rule: the original
/// is re-encoded unscaled, the browsing variant fits within 1600 by 1200,
/// and the thumbnail fills 256 by 256; everything is written as JPEG.
pub open spec fn rule_of_profile(p: Profile) -> ConvertRule {
    match p {
        Profile::ORIGINAL_JPG => ConvertRule { resize: None, format: OutputFormat::Jpeg },
        Profile::SCALE_1600_JPG => ConvertRule {
            resize: Some(ResizeMethod::Scale(1600, 1200, Filter::CatmullRom)),
            format: OutputFormat::Jpeg,
        },
        Profile::THUMBNAIL_256_JPG => ConvertRule {
            resize: Some(ResizeMethod::Fill(256, 256, Filter::CatmullRom)),
            format: OutputFormat::Jpeg,
        },
    }
}

impl ConvertRule {
    /// The conversion rule of one profile, from the fixed table.
    pub fn from_profile(profile: Profile) -> (r: ConvertRule)
        ensures
            r == rule_of_profile(profile),
            rule_wf(r),
    {
        match profile {
            Profile::ORIGINAL_JPG => ConvertRule { resize: None, format: OutputFormat::Jpeg },
            Profile::SCALE_1600_JPG => ConvertRule {
                resize: Some(ResizeMethod::Scale(1600, 1200, Filter::CatmullRom)),
                format: OutputFormat::Jpeg,
            },
            Profile::THUMBNAIL_256_JPG => ConvertRule {
                resize: Some(ResizeMethod::Fill(256, 256, Filter::CatmullRom)),
                format: OutputFormat::Jpeg,
            },
        }
    }

    /// Apply this rule's resize step to a decoded image. The absence of a
    /// resize hands the image through untouched. A scale yields the largest
    /// aspect-preserving size within its box: both dimensions stay within
    /// the box, the binding axis meets its bound exactly, and the other
    /// preserves the aspect ratio up to rounding. A fill never exceeds its
    /// box, and yields exactly the box whenever covering it keeps the scaled
    /// size inside the 32-bit dimension space ([`fill_fits`]). Writing the
    /// result in `self.format` is the caller's step.
    pub fn convert(&self, img: &DecodedImage) -> (r: DecodedImage)
        requires
            rule_wf(*self),
            img.width_spec() >= 1,
            img.height_spec() >= 1,
        ensures
            match self.resize {
                Some(ResizeMethod::Scale(w, h, _)) => {
                    &&& 1 <= r.width_spec() <= w
                    &&& 1 <= r.height_spec() <= h
                    &&& (w as int) * (img.height_spec() as int) <= (h as int) * (
                    img.width_spec() as int) ==> r.width_spec() == w
                    &&& (h as int) * (img.width_spec() as int) <= (w as int) * (
                    img.height_spec() as int) ==> r.height_spec() == h
                    &&& (r.height_spec() as int) * (img.width_spec() as int) <= (
                    img.height_spec() as int) * (r.width_spec() as int) + (
                    img.width_spec() as int) + (img.height_spec() as int)
                    &&& (img.height_spec() as int) * (r.width_spec() as int) <= (
                    r.height_spec() as int) * (img.width_spec() as int) + (
                    img.width_spec() as int) + (img.height_spec() as int)
                },
                Some(ResizeMethod::Fill(w, h, _)) => {
                    &&& r.width_spec() <= w
                    &&& r.height_spec() <= h
                    &&& fill_fits(img.width_spec(), img.height_spec(), w, h)
                        ==> r.width_spec() == w && r.height_spec() == h
                },
                None => r == *img,
            },
    {
        match self.resize {
            None => crate::imaging::resize_keep(img),
            Some(ResizeMethod::Scale(w, h, f)) => crate::imaging::resize_fit(img, w, h, f),
            Some(ResizeMethod::Fill(w, h, f)) => crate::imaging::resize_fill(img, w, h, f),
        }
    }
}

/// A pending unit of conversion work: one (photo, profile) pair, the absolute
/// temporary path of the uploaded source, and the relative destination path.
#[derive(Clone, Debug)]
pub struct ConvertOrder {
    pub id: String,
    pub src: String,
    pub dest: String,
    pub profile: Profile,
}

/// The name of the queue file of one order: `<photoId>_<suffix>.json`,
/// distinct across photos and profiles.
pub open spec fn order_file_name_spec(id: Seq<char>, p: Profile) -> Seq<char> {
    id + seq!['_'] + suffix_spec(p) + seq!['.', 'j', 's', 'o', 'n']
}

impl ConvertOrder {
    /// The dry-run descriptor of this order: the photo exactly as it will
    /// exist once a worker completes the order, usable before any byte is
    /// converted because the destination path is fixed at enqueue time.
    pub fn dryrun(&self) -> (r: Photo)
        ensures
            r.id@ == self.id@,
            r.profile == self.profile,
            r.path@ == self.dest@,
    {
        Photo { id: self.id.clone(), profile: self.profile, path: self.dest.clone() }
    }

    /// The queue file this order is durably stored as.
    pub fn order_file_name(&self) -> (r: String)
        ensures
            r@ == order_file_name_spec(self.id@, self.profile),
    {
        proof {
            reveal_strlit("_");
            reveal_strlit(".json");
        }
        let mut r = self.id.clone();
        r.append("_");
        r.append(self.profile.suffix());
        r.append(".json");
        proof {
            assert("_"@ =~= seq!['_']);
            assert(".json"@ =~= seq!['.', 'j', 's', 'o', 'n']);
            assert(r@ =~= order_file_name_spec(self.id@, self.profile));
        }
        r
    }

    /// The absolute path a worker writes this order's output to: the
    /// relative destination under the live photo root.
    pub fn output_path(&self) -> (r: String)
        ensures
            r@ == DIRECTORY_UPLOAD@ + seq!['/'] + self.dest@,
    {
        proof {
            reveal_strlit("/");
        }
        let mut r = DIRECTORY_UPLOAD.to_owned();
        r.append("/");
        r.append(self.dest.as_str());
        proof {
            assert("/"@ =~= seq!['/']);
            assert(r@ =~= DIRECTORY_UPLOAD@ + seq!['/'] + self.dest@);
        }
        r
    }
}

/// Build the orders that enqueue one uploaded photo, one per display
/// profile, together with the dry-run descriptors handed back to the
/// uploader. The descriptors predict exactly the destination paths the
/// orders will produce, so the response can be served before conversion.
pub fn enqueue(src: &str, dest: &PhotoPath) -> (r: (Vec<ConvertOrder>, Vec<Photo>))
    ensures
        r.0@.len() == upload_profiles_spec().len(),
        r.1@.len() == r.0@.len(),
        forall|i: int|
            0 <= i < r.0@.len() ==> {
                let o = #[trigger] r.0@[i];
                &&& o.id@ == dest.id@
                &&& o.src@ == src@
                &&& o.profile == upload_profiles_spec()[i]
                &&& o.dest@ == encoded_path(
                    dest.analysis@,
                    dest.comment@,
                    dest.id@,
                    upload_profiles_spec()[i],
                )
            },
        forall|i: int|
            0 <= i < r.1@.len() ==> {
                let p = #[trigger] r.1@[i];
                &&& p.id@ == dest.id@
                &&& p.profile == r.0@[i].profile
                &&& p.path@ == r.0@[i].dest@
            },
{
    let profiles = upload_profiles();
    let mut orders: Vec<ConvertOrder> = Vec::new();
    let mut photos: Vec<Photo> = Vec::new();
    let mut i: usize = 0;
    while i < profiles.len()
        invariant
            i <= profiles@.len(),
            profiles@ == upload_profiles_spec(),
            orders@.len() == i,
            photos@.len() == i,
            forall|k: int|
                0 <= k < i ==> {
                    let o = #[trigger] orders@[k];
                    &&& o.id@ == dest.id@
                    &&& o.src@ == src@
                    &&& o.profile == upload_profiles_spec()[k]
                    &&& o.dest@ == encoded_path(
                        dest.analysis@,
                        dest.comment@,
                        dest.id@,
                        upload_profiles_spec()[k],
                    )
                },
            forall|k: int|
                0 <= k < i ==> {
                    let p = #[trigger] photos@[k];
                    &&& p.id@ == dest.id@
                    &&& p.profile == orders@[k].profile
                    &&& p.path@ == orders@[k].dest@
                },
        decreases profiles@.len() - i,
    {
        let profile = profiles[i];
        let order = ConvertOrder {
            id: dest.id.clone(),
            src: src.to_owned(),
            dest: dest.as_path(&profile),
            profile,
        };
        let photo = order.dryrun();
        orders.push(order);
        photos.push(photo);
        i = i + 1;
    }
    (orders, photos)
}

/// Where a soft deletion moves a photo group: one directory-level rename
/// from the live tree to the trash tree, preserving the relative subpath.
#[derive(Debug)]
pub struct MovePlan {
    pub from: String,
    pub to: String,
}

/// Plan the soft deletion of a photo group. Any member photo determines the
/// shared group directory through the path codec. An empty group deletes
/// nothing and succeeds; a member path that does not decode is rejected as
/// malformed, and nothing is moved.
pub fn delete(photos: &Vec<Photo>) -> (r: Result<Option<MovePlan>, PathError>)
    ensures
        match r {
            Ok(plan) => match plan {
                Some(p) => photos@.len() > 0 && {
                    let d = decode_spec(photos@[0].path@);
                    &&& d is Some
                    &&& {
                        let (owner, group, pid) = d->0;
                        &&& p.from@ == DIRECTORY_UPLOAD@ + seq!['/'] + directory_path(
                            owner,
                            group,
                            pid,
                        )
                        &&& p.to@ == DIRECTORY_DELETED@ + seq!['/'] + directory_path(
                            owner,
                            group,
                            pid,
                        )
                    }
                },
                None => photos@.len() == 0,
            },
            Err(e) => photos@.len() > 0 && decode_spec(photos@[0].path@) is None && e
                == PathError::MalformedPath,
        },
{
    if photos.len() == 0 {
        return Ok(None);
    }
    let path = PhotoPath::decode(photos[0].path.as_str())?;
    proof {
        reveal_strlit("/");
    }
    let dir = path.directory();
    let mut from = DIRECTORY_UPLOAD.to_owned();
    from.append("/");
    from.append(dir.as_str());
    let mut to = DIRECTORY_DELETED.to_owned();
    to.append("/");
    to.append(dir.as_str());
    proof {
        assert("/"@ =~= seq!['/']);
    }
    Ok(Some(MovePlan { from, to }))
}

/// The views of a sequence of character vectors.
pub open spec fn seg_views(r: Seq<Vec<char>>) -> Seq<Seq<char>> {
    r.map_values(|x: Vec<char>| x@)
}

/// Split `v[i..]` into its separator-free segments, mirroring
/// [`segments_of`].
fn split_segments(v: &Vec<char>, i: usize) -> (r: Vec<Vec<char>>)
    requires
        i <= v@.len(),
    ensures
        seg_views(r@) == segments_of(v@.skip(i as int)),
    decreases v@.len() - i,
{
    let s = Ghost(v@.skip(i as int));
    if i == v.len() {
        let r: Vec<Vec<char>> = Vec::new();
        proof {
            assert(s@ =~= Seq::<char>::empty());
            assert(seg_views(r@) =~= segments_of(s@));
        }
        r
    } else if v[i] == '/' {
        let r = split_segments(v, i + 1);
        proof {
            assert(s@.drop_first() =~= v@.skip(i + 1 as int));
        }
        r
    } else {
        let mut j = i + 1;
        while j < v.len() && v[j] != '/'
            invariant
                i < j <= v@.len(),
                forall|k: int| i <= k < j ==> v@[k] != '/',
            decreases v@.len() - j,
        {
            j = j + 1;
        }
        let mut seg: Vec<char> = Vec::new();
        let mut k = i;
        while k < j
            invariant
                i <= k <= j <= v@.len(),
                seg@ == v@.subrange(i as int, k as int),
            decreases j - k,
        {
            seg.push(v[k]);
            k = k + 1;
            proof {
                assert(seg@ =~= v@.subrange(i as int, k as int));
            }
        }
        let mut rest = split_segments(v, j);
        let mut r: Vec<Vec<char>> = Vec::new();
        r.push(seg);
        let ghost seg_view = v@.subrange(i as int, j as int);
        r.append(&mut rest);
        proof {
            let pl = j - i as int;
            lemma_seg_prefix_len_is(s@, pl);
            assert(s@.take(pl) =~= seg_view);
            assert(s@.skip(pl) =~= v@.skip(j as int));
            assert(seg_views(r@) =~= seq![s@.take(pl)] + segments_of(s@.skip(pl)));
        }
        r
    }
}


/// Generates the unique id of one uploaded photo, from the owning record id
/// and the uploaded file name.
pub struct CommentPhotoIdGenerator(IdGenerator<(String, String, String)>);

impl CommentPhotoIdGenerator {
    /// The content tuple behind this generator's id.
    pub closed spec fn content_of(&self) -> (String, String, String) {
        self.0.content_of()
    }

    pub fn new(analysis: &str, filename: &str) -> (r: CommentPhotoIdGenerator)
        ensures
            r.content_of().0@ == "comment"@,
            r.content_of().1@ == analysis@,
            r.content_of().2@ == filename@,
    {
        CommentPhotoIdGenerator(
            IdGenerator::new(("comment".to_owned(), analysis.to_owned(), filename.to_owned())),
        )
    }
}

impl Generate for CommentPhotoIdGenerator {
    /// The id of the wrapped generator.
    closed spec fn id_spec(&self) -> Seq<char> {
        self.0.id_spec()
    }

    fn generate(&self) -> (r: String) {
        self.0.generate()
    }
}

} // verus!
