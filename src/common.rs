//! The data types shared by the picture frame service and its clients.

use vstd::prelude::*;

use crate::text::{opt_text, str_eq};

verus! {

/// Three minutes, in seconds.
pub const THREE_MINS: u32 = 180;

/// Visual style of a mat (the border around a framed picture).
#[derive(Debug, Clone)]
pub struct MatStyle {
    pub name: String,
    pub background_color: String,
    pub padding: String,
    pub shadow: Option<String>,
    pub inner_border: Option<String>,
}

/// The contents of a [`MatStyle`].
pub struct MatStyleView {
    pub name: Seq<char>,
    pub background_color: Seq<char>,
    pub padding: Seq<char>,
    pub shadow: Option<Seq<char>>,
    pub inner_border: Option<Seq<char>>,
}

impl View for MatStyle {
    type V = MatStyleView;

    open spec fn view(&self) -> MatStyleView {
        MatStyleView {
            name: self.name@,
            background_color: self.background_color@,
            padding: self.padding@,
            shadow: opt_text(self.shadow),
            inner_border: opt_text(self.inner_border),
        }
    }
}

/// The style of a preset; an unknown name gives the `classic` preset.
pub open spec fn preset_style(name: Seq<char>) -> MatStyleView {
    if name == "modern"@ {
        MatStyleView {
            name: "modern"@,
            background_color: "#ffffff"@,
            padding: "3vmin"@,
            shadow: Some("0 4px 20px rgba(0,0,0,0.15)"@),
            inner_border: None,
        }
    } else if name == "gallery"@ {
        MatStyleView {
            name: "gallery"@,
            background_color: "#2c2c2c"@,
            padding: "5vmin"@,
            shadow: None,
            inner_border: None,
        }
    } else if name == "minimal"@ {
        MatStyleView {
            name: "minimal"@,
            background_color: "#f8f8f8"@,
            padding: "2vmin"@,
            shadow: None,
            inner_border: None,
        }
    } else if name == "rich"@ {
        MatStyleView {
            name: "rich"@,
            background_color: "#3a2a1a"@,
            padding: "4vmin"@,
            shadow: Some("inset 0 0 30px rgba(0,0,0,0.3)"@),
            inner_border: None,
        }
    } else if name == "none"@ {
        MatStyleView {
            name: "none"@,
            background_color: "transparent"@,
            padding: "0"@,
            shadow: None,
            inner_border: None,
        }
    } else {
        MatStyleView {
            name: "classic"@,
            background_color: "#f5f2eb"@,
            padding: "4vmin"@,
            shadow: None,
            inner_border: None,
        }
    }
}

fn style(
    name: &str,
    background_color: &str,
    padding: &str,
    shadow: Option<&str>,
) -> (r: MatStyle)
    ensures
        r.name@ == name@,
        r.background_color@ == background_color@,
        r.padding@ == padding@,
        opt_text(r.shadow) == match shadow {
            Some(s) => Some(s@),
            None => None::<Seq<char>>,
        },
        r.inner_border is None,
{
    MatStyle {
        name: String::from_str(name),
        background_color: String::from_str(background_color),
        padding: String::from_str(padding),
        shadow: match shadow {
            Some(s) => Some(String::from_str(s)),
            None => None,
        },
        inner_border: None,
    }
}

impl MatStyle {
    /// The style of the named preset; any other name gives `classic`.
    pub fn from_preset(name: &str) -> (r: MatStyle)
        ensures
            r@ == preset_style(name@),
    {
        if str_eq(name, "modern") {
            style("modern", "#ffffff", "3vmin", Some("0 4px 20px rgba(0,0,0,0.15)"))
        } else if str_eq(name, "gallery") {
            style("gallery", "#2c2c2c", "5vmin", None)
        } else if str_eq(name, "minimal") {
            style("minimal", "#f8f8f8", "2vmin", None)
        } else if str_eq(name, "rich") {
            style("rich", "#3a2a1a", "4vmin", Some("inset 0 0 30px rgba(0,0,0,0.3)"))
        } else if str_eq(name, "none") {
            style("none", "transparent", "0", None)
        } else {
            style("classic", "#f5f2eb", "4vmin", None)
        }
    }

    /// The names of all presets.
    pub fn preset_names() -> (r: &'static [&'static str])
        ensures
            r@.len() == 6,
            r@[0]@ == "classic"@,
            r@[1]@ == "modern"@,
            r@[2]@ == "gallery"@,
            r@[3]@ == "minimal"@,
            r@[4]@ == "rich"@,
            r@[5]@ == "none"@,
    {
        &["classic", "modern", "gallery", "minimal", "rich", "none"]
    }
}

/// A failure of a request made by [`Client`].
#[derive(Debug, Clone)]
pub enum ApiError {
    Network(String),
    Http { status: u16, message: String },
    Serialization(String),
    Deserialization(String),
}

/// A change to an optional field: set it to a value, or remove it.
#[derive(Debug)]
pub enum Update<T> {
    Replace(T),
    Remove,
}

/// The identifier of an album.
#[derive(Debug, Clone, Copy, PartialEq, Eq, Structural)]
pub struct AlbumID(pub i32);

impl From<i32> for AlbumID {
    fn from(id: i32) -> (r: AlbumID)
        ensures
            r.0 == id,
    {
        AlbumID(id)
    }
}

impl vstd::std_specs::convert::FromSpecImpl<i32> for AlbumID {
    open spec fn obeys_from_spec() -> bool {
        true
    }

    open spec fn from_spec(id: i32) -> AlbumID {
        AlbumID(id)
    }
}

/// The identifier of a photo.
#[derive(Debug, Clone, Copy)]
pub struct PhotoID(pub i32);

impl From<i32> for PhotoID {
    fn from(id: i32) -> (r: PhotoID)
        ensures
            r.0 == id,
    {
        PhotoID(id)
    }
}

impl vstd::std_specs::convert::FromSpecImpl<i32> for PhotoID {
    open spec fn obeys_from_spec() -> bool {
        true
    }

    open spec fn from_spec(id: i32) -> PhotoID {
        PhotoID(id)
    }
}

/// A request to create an album.
#[derive(Debug)]
pub struct CreateAlbumRequest {
    pub name: String,
    pub notes: Option<String>,
}

/// A request to change an album.
#[derive(Debug)]
pub struct UpdateAlbumRequest {
    pub name: Option<String>,
    pub notes: Option<Update<String>>,
}

/// A request to change the rotation settings.
#[derive(Debug)]
pub struct UpdateSettingsRequest {
    pub current_album_id: Option<Update<AlbumID>>,
    pub interval_seconds: Option<i32>,
}

/// The time a photo stays on screen, in seconds.
#[derive(Debug, Clone, Copy)]
pub struct Interval(pub u32);

impl Interval {
    pub fn from_seconds(seconds: u32) -> (r: Interval)
        ensures
            r.0 == seconds,
    {
        Interval(seconds)
    }

    pub fn seconds(&self) -> (r: u32)
        ensures
            r == self.0,
    {
        self.0
    }
}

impl Default for Interval {
    /// Three minutes.
    fn default() -> (r: Interval)
        ensures
            r.0 == THREE_MINS,
    {
        Interval(THREE_MINS)
    }
}

impl From<i32> for Interval {
    /// The seconds reinterpreted as unsigned (a negative count wraps).
    fn from(seconds: i32) -> (r: Interval)
        ensures
            r.0 == seconds as u32,
    {
        Interval(seconds as u32)
    }
}

impl vstd::std_specs::convert::FromSpecImpl<i32> for Interval {
    open spec fn obeys_from_spec() -> bool {
        true
    }

    open spec fn from_spec(seconds: i32) -> Interval {
        Interval(seconds as u32)
    }
}

/// The album photos are shown from, and the position reached in it.
#[derive(Debug, Clone)]
pub struct CurrentAlbum {
    /// Current album to serve images from.
    pub album: AlbumID,
    /// Index of the currently displayed image in the album.
    pub index: usize,
}

/// What is shown and for how long.
#[derive(Debug, Clone)]
pub struct RotationSettings {
    pub current_album: Option<CurrentAlbum>,
    /// Number of seconds until the next image.
    pub interval: Interval,
}

impl Default for RotationSettings {
    /// No album chosen, three minutes per photo.
    fn default() -> (r: RotationSettings)
        ensures
            r.current_album is None,
            r.interval.0 == THREE_MINS,
    {
        RotationSettings { current_album: None, interval: Interval::default() }
    }
}

/// A new album as the store inserts it.
#[derive(Debug)]
pub struct NewAlbum {
    pub name: String,
    pub notes: Option<String>,
}

/// A base URL without its trailing slashes.
pub open spec fn trim_slashes(s: Seq<char>) -> Seq<char>
    decreases s.len(),
{
    if s.len() > 0 && s.last() == '/' {
        trim_slashes(s.drop_last())
    } else {
        s
    }
}

/// A client of the picture frame service.
#[derive(Debug, Clone)]
pub struct Client {
    base_url: String,
}

impl Client {
    /// The base URL requests are made against.
    pub closed spec fn base(&self) -> Seq<char> {
        self.base_url@
    }

    pub fn new(base_url: &str) -> (r: Client)
        ensures
            r.base() == base_url@,
    {
        Client { base_url: String::from_str(base_url) }
    }

    /// The full URL of a path: the base URL without trailing slashes,
    /// followed by the path.
    pub fn build_url(&self, path: &str) -> (r: String)
        ensures
            r@ == trim_slashes(self.base()) + path@,
    {
        let base = self.base_url.as_str();
        let mut end = base.unicode_len();
        assert(base@.take(end as int) =~= base@);
        while end > 0 && base.get_char(end - 1) == '/'
            invariant
                end <= base@.len(),
                trim_slashes(base@.take(end as int)) == trim_slashes(base@),
            decreases end,
        {
            proof {
                assert(base@.take(end as int).drop_last() =~= base@.take(end - 1));
            }
            end = end - 1;
        }
        let mut url = String::from_str(base.substring_char(0, end));
        url.append(path);
        url
    }
}

} // verus!
