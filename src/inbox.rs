//! Which files dropped into the inbox are taken as photos.

use vstd::prelude::*;

verus! {

/// What `Path::extension` gives for a path: the text after the last `.` of
/// its final component, a function of the path alone.
pub uninterp spec fn extension_of(path: Seq<char>) -> Option<Seq<char>>;

/// Relies on `std::path::Path::extension`, which takes the final component
/// of the path and returns what follows its last `.` (none for a name
/// without a dot or one that only starts with a dot).
#[verifier::external_body]
fn path_extension(path: &str) -> (r: Option<String>)
    ensures
        match r {
            Some(e) => extension_of(path@) == Some(e@),
            None => extension_of(path@) is None,
        },
{
    match std::path::Path::new(path).extension() {
        Some(e) => Some(e.to_string_lossy().into_owned()),
        None => None,
    }
}

/// `c` is `lower` or, for an ASCII letter, its upper-case form.
pub open spec fn ascii_ci_char(c: char, lower: char) -> bool {
    c == lower || ('a' <= lower <= 'z' && c as u32 + 32 == lower as u32)
}

/// `s` equals the lower-case ASCII text `lower`, ignoring ASCII case.
pub open spec fn ascii_ci_eq(s: Seq<char>, lower: Seq<char>) -> bool {
    s.len() == lower.len() && forall|i: int| 0 <= i < s.len() ==> ascii_ci_char(s[i], #[trigger] lower[i])
}

/// An extension that marks a JPEG photo.
pub open spec fn photo_extension(ext: Seq<char>) -> bool {
    ascii_ci_eq(ext, "jpg"@) || ascii_ci_eq(ext, "jpeg"@)
}

fn ci_eq(s: &str, lower: &str) -> (r: bool)
    ensures
        r == ascii_ci_eq(s@, lower@),
{
    let n = s.unicode_len();
    if n != lower.unicode_len() {
        return false;
    }
    let mut i: usize = 0;
    while i < n
        invariant
            n == s@.len(),
            n == lower@.len(),
            i <= n,
            forall|k: int| 0 <= k < i ==> ascii_ci_char(s@[k], #[trigger] lower@[k]),
        decreases n - i,
    {
        let c = s.get_char(i);
        let l = lower.get_char(i);
        if !(c == l || ('a' <= l && l <= 'z' && (c as u32) + 32 == (l as u32))) {
            return false;
        }
        i = i + 1;
    }
    true
}

/// Whether an extension marks a photo: `jpg` or `jpeg`, in any ASCII case.
pub fn is_photo_extension(ext: &str) -> (r: bool)
    ensures
        r == photo_extension(ext@),
{
    ci_eq(ext, "jpg") || ci_eq(ext, "jpeg")
}

/// Whether a file is taken as a photo: its extension is `jpg` or `jpeg`,
/// in any ASCII case.
pub fn is_photo(path: &str) -> (r: bool)
    ensures
        r == match extension_of(path@) {
            Some(e) => photo_extension(e),
            None => false,
        },
{
    match path_extension(path) {
        Some(e) => is_photo_extension(e.as_str()),
        None => false,
    }
}

} // verus!
