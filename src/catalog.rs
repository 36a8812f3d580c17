use crate::track::{file_name_of, Track};
use vstd::prelude::*;
use vstd::string::*;

verus! {

/// Why a directory could not be listed: it is missing or unreadable, or the
/// pattern built from it is malformed.
#[derive(Debug, Clone, Copy, PartialEq, Eq, Structural)]
pub enum ScanError {
    Unreadable,
}

/// The paths that a listing holds, as character sequences.
pub open spec fn paths_view(v: Seq<String>) -> Seq<Seq<char>> {
    v.map_values(|s: String| s@)
}

/// What a listing of a directory gives to a catalog: its paths, or none at
/// all when the directory could not be read.
pub open spec fn listed_paths(listing: Result<Vec<String>, ScanError>) -> Seq<Seq<char>> {
    match listing {
        Ok(v) => paths_view(v@),
        Err(_) => Seq::empty(),
    }
}

/// The glob pattern that picks the audio files directly inside `directory`.
pub fn scan_pattern(directory: &str) -> (r: String)
    ensures
        r@ == directory@ + "/*.mp3"@,
{
    String::from_str(directory).concat("/*.mp3")
}

/// The tracks of one directory, in the order in which its listing gave them.
#[derive(Debug)]
pub struct TrackCatalog {
    pub tracks: Vec<Track>,
}

impl View for TrackCatalog {
    type V = Seq<Seq<char>>;

    /// The paths of the tracks, in order.
    open spec fn view(&self) -> Seq<Seq<char>> {
        self.tracks@.map_values(|t: Track| t.path@)
    }
}

impl TrackCatalog {
    /// Each track is named by the final segment of its path.
    pub open spec fn wf(&self) -> bool {
        forall|i: int| 0 <= i < self.tracks@.len() ==> (#[trigger] self.tracks@[i]).wf()
    }

    /// A catalog with no tracks: a directory was scanned and nothing matched.
    pub fn empty() -> (c: TrackCatalog)
        ensures
            c.wf(),
            c@ == Seq::<Seq<char>>::empty(),
    {
        let c = TrackCatalog { tracks: Vec::new() };
        assert(c@ =~= Seq::<Seq<char>>::empty());
        c
    }

    /// One track for each path, in the same order.
    pub fn from_paths(paths: &Vec<String>) -> (c: TrackCatalog)
        ensures
            c.wf(),
            c@ == paths_view(paths@),
            c.tracks@.len() == paths@.len(),
            forall|i: int|
                0 <= i < paths@.len() ==> (#[trigger] c.tracks@[i]).name@ == file_name_of(
                    paths@[i]@,
                ),
    {
        let mut tracks: Vec<Track> = Vec::new();
        let mut i: usize = 0;
        while i < paths.len()
            invariant
                i <= paths@.len(),
                tracks@.len() == i,
                forall|j: int|
                    0 <= j < i ==> (#[trigger] tracks@[j]).path@ == paths@[j]@ && tracks@[j].wf(),
            decreases paths.len() - i,
        {
            tracks.push(Track::new(paths[i].clone()));
            i = i + 1;
        }
        let c = TrackCatalog { tracks };
        assert(c@ =~= paths_view(paths@));
        c
    }

    /// The catalog of a directory from its listing. A listing that failed
    /// gives an empty catalog.
    pub fn from_listing(listing: &Result<Vec<String>, ScanError>) -> (c: TrackCatalog)
        ensures
            c.wf(),
            c@ == listed_paths(*listing),
    {
        match listing {
            Ok(paths) => TrackCatalog::from_paths(paths),
            Err(_) => TrackCatalog::empty(),
        }
    }

    /// Whether a track of the catalog has the path `path`.
    pub fn contains(&self, path: &String) -> (r: bool)
        ensures
            r == self@.contains(path@),
    {
        let mut i: usize = 0;
        while i < self.tracks.len()
            invariant
                i <= self.tracks@.len(),
                forall|j: int| 0 <= j < i ==> self@[j] != path@,
            decreases self.tracks.len() - i,
        {
            if self.tracks[i].path == *path {
                assert(self@[i as int] == path@);
                return true;
            }
            i = i + 1;
        }
        false
    }
}

/// Two catalogs built from the same listing hold the same tracks, with the
/// same names, in the same order.
pub proof fn lemma_catalog_build_idempotent(
    listing: Result<Vec<String>, ScanError>,
    c1: TrackCatalog,
    c2: TrackCatalog,
)
    requires
        c1.wf(),
        c2.wf(),
        c1@ == listed_paths(listing),
        c2@ == listed_paths(listing),
    ensures
        c1.tracks@.len() == c2.tracks@.len(),
        forall|i: int|
            0 <= i < c1.tracks@.len() ==> (#[trigger] c1.tracks@[i]).path@ == c2.tracks@[i].path@
                && c1.tracks@[i].name@ == c2.tracks@[i].name@,
{
    assert(c1@.len() == c1.tracks@.len());
    assert(c2@.len() == c2.tracks@.len());
    assert forall|i: int| 0 <= i < c1.tracks@.len() implies (#[trigger] c1.tracks@[i]).path@
        == c2.tracks@[i].path@ && c1.tracks@[i].name@ == c2.tracks@[i].name@ by {
        assert(c1@[i] == c2@[i]);
        assert(c1.tracks@[i].wf());
        assert(c2.tracks@[i].wf());
    }
}

} // verus!
