//! Naming of uploaded image files by media subtype.
//!
//! The media type arrives from the upload request; only its subtype matters
//! here, carried as a plain lower-case string. Unsupported subtypes yield no
//! file name, and the upload is rejected.

use vstd::prelude::*;
use vstd::string::StringExecFns;

use crate::text::str_eq;

verus! {

/// An uploaded image to be stored: its name stem, the media subtype it
/// arrived with, and the directory it goes to.
pub struct ImagePath {
    pub name: String,
    pub mimetype: String,
    pub dirname: Option<String>,
}

/// The file extension of a media subtype: only JPEG and PNG images are
/// accepted.
pub open spec fn extension_spec(subtype: Seq<char>) -> Option<Seq<char>> {
    if subtype == "jpeg"@ {
        Some("jpg"@)
    } else if subtype == "png"@ {
        Some("png"@)
    } else {
        None
    }
}

impl ImagePath {
    /// The extension this image is stored under, when its subtype is
    /// supported.
    pub fn extension_str(&self) -> (r: Option<&'static str>)
        ensures
            match r {
                Some(e) => extension_spec(self.mimetype@) == Some(e@),
                None => extension_spec(self.mimetype@) is None,
            },
    {
        if str_eq(self.mimetype.as_str(), "jpeg") {
            Some("jpg")
        } else if str_eq(self.mimetype.as_str(), "png") {
            Some("png")
        } else {
            None
        }
    }

    /// The file name: `<name>.<extension>`.
    pub fn filename(&self) -> (r: Option<String>)
        ensures
            match r {
                Some(f) => extension_spec(self.mimetype@) matches Some(e) && f@ == self.name@
                    + seq!['.'] + e,
                None => extension_spec(self.mimetype@) is None,
            },
    {
        proof {
            reveal_strlit(".");
        }
        match self.extension_str() {
            None => None,
            Some(ext) => {
                let mut f = self.name.clone();
                f.append(".");
                f.append(ext);
                proof {
                    assert("."@ =~= seq!['.']);
                }
                Some(f)
            },
        }
    }

    /// The full path: the file name under this image's directory, or under
    /// the current directory when none is set.
    pub fn filename_full(&self) -> (r: Option<String>)
        ensures
            match r {
                Some(f) => extension_spec(self.mimetype@) matches Some(e) && {
                    let dir = match self.dirname {
                        Some(d) => d@,
                        None => "."@,
                    };
                    f@ == dir + seq!['/'] + self.name@ + seq!['.'] + e
                },
                None => extension_spec(self.mimetype@) is None,
            },
    {
        proof {
            reveal_strlit("/");
            reveal_strlit(".");
        }
        match self.filename() {
            None => None,
            Some(name) => {
                let mut f = match &self.dirname {
                    Some(d) => d.clone(),
                    None => ".".to_owned(),
                };
                f.append("/");
                f.append(name.as_str());
                proof {
                    assert("/"@ =~= seq!['/']);
                }
                Some(f)
            },
        }
    }
}

} // verus!
