use vstd::prelude::*;
use vstd::string::*;

verus! {

/// Artist, album and title of a track as plain character sequences.
pub struct TagsView {
    pub artist: Seq<char>,
    pub album: Seq<char>,
    pub title: Seq<char>,
}

/// Metadata of one track. An empty string means that the field is absent.
#[derive(Debug)]
pub struct Tags {
    artist: String,
    album: String,
    title: String,
}

/// The parts joined in order, with `sep` between each two neighbours.
pub open spec fn joined(parts: Seq<Seq<char>>, sep: Seq<char>) -> Seq<char>
    decreases parts.len(),
{
    if parts.len() == 0 {
        Seq::empty()
    } else if parts.len() == 1 {
        parts[0]
    } else {
        joined(parts.drop_last(), sep) + sep + parts.last()
    }
}

/// The character sequences of a list of strings.
pub open spec fn texts(v: Seq<String>) -> Seq<Seq<char>> {
    v.map_values(|s: String| s@)
}

/// Joins the strings of `parts` in order, with `sep` between neighbours.
pub fn join_values(parts: &Vec<String>, sep: &str) -> (r: String)
    ensures
        r@ == joined(texts(parts@), sep@),
{
    let mut r = String::new();
    let n = parts.len();
    let mut i: usize = 0;
    while i < n
        invariant
            i <= n,
            n == parts@.len(),
            r@ == joined(texts(parts@.take(i as int)), sep@),
        decreases n - i,
    {
        let ghost before = texts(parts@.take(i as int));
        let ghost after = texts(parts@.take(i as int + 1));
        assert(after.drop_last() =~= before);
        assert(after.last() == parts@[i as int]@);
        if i > 0 {
            r.append(sep);
        }
        r.append(parts[i].as_str());
        i = i + 1;
    }
    assert(parts@.take(n as int) =~= parts@);
    r
}

impl View for Tags {
    type V = TagsView;

    closed spec fn view(&self) -> TagsView {
        TagsView { artist: self.artist@, album: self.album@, title: self.title@ }
    }
}

impl Tags {
    /// Tags with every field absent.
    pub fn empty() -> (r: Tags)
        ensures
            r@.artist.len() == 0,
            r@.album.len() == 0,
            r@.title.len() == 0,
    {
        Tags { artist: String::new(), album: String::new(), title: String::new() }
    }

    /// Tags with the given fields.
    pub fn new(artist: String, album: String, title: String) -> (r: Tags)
        ensures
            r@.artist == artist@,
            r@.album == album@,
            r@.title == title@,
    {
        Tags { artist, album, title }
    }

    /// Tags from multi-valued comments: the artists joined on ", ", the
    /// albums and the titles each joined on " ".
    pub fn from_values(artists: &Vec<String>, albums: &Vec<String>, titles: &Vec<String>) -> (r:
        Tags)
        ensures
            r@.artist == joined(texts(artists@), ", "@),
            r@.album == joined(texts(albums@), " "@),
            r@.title == joined(texts(titles@), " "@),
    {
        Tags {
            artist: join_values(artists, ", "),
            album: join_values(albums, " "),
            title: join_values(titles, " "),
        }
    }

    /// A copy of these tags.
    pub fn duplicate(&self) -> (r: Tags)
        ensures
            r@ == self@,
    {
        Tags { artist: self.artist.clone(), album: self.album.clone(), title: self.title.clone() }
    }

    pub fn artist(&self) -> (r: String)
        ensures
            r@ == self@.artist,
    {
        self.artist.clone()
    }

    pub fn album(&self) -> (r: String)
        ensures
            r@ == self@.album,
    {
        self.album.clone()
    }

    pub fn title(&self) -> (r: String)
        ensures
            r@ == self@.title,
    {
        self.title.clone()
    }
}

} // verus!
