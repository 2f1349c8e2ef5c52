use vstd::prelude::*;

verus! {

/// A target picture size in pixels.
#[derive(Clone, Copy, Debug, PartialEq, Eq, Structural)]
pub struct Resolution {
    pub width: u32,
    pub height: u32,
}

/// Width of the geometry used for labels the catalog does not know.
pub const FALLBACK_WIDTH: u32 = 854;

/// Height of the geometry used for labels the catalog does not know.
pub const FALLBACK_HEIGHT: u32 = 480;

/// The fixed catalog of named resolutions.
pub open spec fn catalog_lookup(label: Seq<char>) -> Option<Resolution> {
    if label == "4K"@ {
        Some(Resolution { width: 3840, height: 2160 })
    } else if label == "1080p"@ {
        Some(Resolution { width: 1920, height: 1080 })
    } else if label == "720p"@ {
        Some(Resolution { width: 1280, height: 720 })
    } else if label == "480p"@ {
        Some(Resolution { width: 854, height: 480 })
    } else {
        None
    }
}

/// Whether the catalog knows the label.
pub open spec fn is_recognized(label: Seq<char>) -> bool {
    catalog_lookup(label).is_some()
}

/// The geometry used in place of an unknown label.
pub open spec fn fallback_spec() -> Resolution {
    Resolution { width: 854, height: 480 }
}

/// Character-by-character comparison of two strings.
fn same_text(a: &str, b: &str) -> (r: bool)
    ensures
        r == (a@ == b@),
{
    let n = a.unicode_len();
    if n != b.unicode_len() {
        return false;
    }
    let mut i: usize = 0;
    while i < n
        invariant
            n == a@.len(),
            n == b@.len(),
            i <= n,
            forall|j: int| 0 <= j < i ==> a@[j] == b@[j],
        decreases n - i,
    {
        if a.get_char(i) != b.get_char(i) {
            return false;
        }
        i = i + 1;
    }
    assert(a@ =~= b@);
    true
}

impl Resolution {
    /// Looks a label up in the catalog; an unknown label gives `None`.
    pub fn from_string(res: &str) -> (r: Option<Resolution>)
        ensures
            r == catalog_lookup(res@),
    {
        if same_text(res, "4K") {
            Some(Resolution { width: 3840, height: 2160 })
        } else if same_text(res, "1080p") {
            Some(Resolution { width: 1920, height: 1080 })
        } else if same_text(res, "720p") {
            Some(Resolution { width: 1280, height: 720 })
        } else if same_text(res, "480p") {
            Some(Resolution { width: 854, height: 480 })
        } else {
            None
        }
    }

    /// The geometry that stands in for an unrecognized label.
    pub fn fallback() -> (r: Resolution)
        ensures
            r == fallback_spec(),
    {
        Resolution { width: FALLBACK_WIDTH, height: FALLBACK_HEIGHT }
    }

    /// Whether this geometry fits inside a source of the given size on both axes.
    pub fn fits_within(&self, source_width: u32, source_height: u32) -> (r: bool)
        ensures
            r == (self.width <= source_width && self.height <= source_height),
    {
        self.width <= source_width && self.height <= source_height
    }
}

} // verus!
