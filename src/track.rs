use vstd::prelude::*;
use vstd::string::*;

verus! {

/// The characters that separate the segments of a path, on any platform.
pub open spec fn is_separator(c: char) -> bool {
    c == '/' || c == '\\'
}

/// The final segment of a path: what follows its last separator, or the
/// whole path when it has none.
pub open spec fn file_name_of(p: Seq<char>) -> Seq<char>
    decreases p.len(),
{
    if p.len() == 0 {
        p
    } else if is_separator(p.last()) {
        Seq::empty()
    } else {
        file_name_of(p.drop_last()).push(p.last())
    }
}

/// `p[i..]` is the final segment of `p` when no separator lies in it and
/// the character just before it, if any, is a separator.
proof fn lemma_file_name_suffix(p: Seq<char>, i: int)
    requires
        0 <= i <= p.len(),
        forall|j: int| i <= j < p.len() ==> !is_separator(#[trigger] p[j]),
        i == 0 || is_separator(p[i - 1]),
    ensures
        file_name_of(p) == p.subrange(i, p.len() as int),
    decreases p.len(),
{
    if p.len() == i {
        assert(p.subrange(i, p.len() as int) =~= Seq::<char>::empty());
    } else {
        let q = p.drop_last();
        assert forall|j: int| i <= j < q.len() implies !is_separator(#[trigger] q[j]) by {
            assert(q[j] == p[j]);
        }
        lemma_file_name_suffix(q, i);
        assert(q.subrange(i, q.len() as int).push(p.last()) =~= p.subrange(i, p.len() as int));
    }
}

/// The name of a path is its final segment: a suffix of the path that holds
/// no separator, and that is either the whole path or follows a separator.
pub proof fn lemma_file_name_is_final_segment(p: Seq<char>)
    ensures
        exists|i: int|
            #![trigger p.subrange(i, p.len() as int)]
            0 <= i <= p.len() && file_name_of(p) == p.subrange(i, p.len() as int) && (i == 0
                || is_separator(p[i - 1])) && (forall|j: int|
                i <= j < p.len() ==> !is_separator(#[trigger] p[j])),
    decreases p.len(),
{
    if p.len() == 0 {
        lemma_file_name_suffix(p, 0);
        assert(p.subrange(0, p.len() as int) == file_name_of(p));
    } else if is_separator(p.last()) {
        let n = p.len() as int;
        lemma_file_name_suffix(p, n);
        assert(p.subrange(n, n) == file_name_of(p));
    } else {
        let q = p.drop_last();
        lemma_file_name_is_final_segment(q);
        let i = choose|i: int|
            #![trigger q.subrange(i, q.len() as int)]
            0 <= i <= q.len() && file_name_of(q) == q.subrange(i, q.len() as int) && (i == 0
                || is_separator(q[i - 1])) && (forall|j: int|
                i <= j < q.len() ==> !is_separator(#[trigger] q[j]));
        assert forall|j: int| i <= j < p.len() implies !is_separator(#[trigger] p[j]) by {
            if j < q.len() {
                assert(q[j] == p[j]);
            }
        }
        assert(i > 0 ==> q[i - 1] == p[i - 1]);
        lemma_file_name_suffix(p, i);
        assert(p.subrange(i, p.len() as int) == file_name_of(p));
    }
}

fn separator(c: char) -> (r: bool)
    ensures
        r == is_separator(c),
{
    c == '/' || c == '\\'
}

/// The final segment of `path`, whichever of `/` and `\` separates it.
pub fn get_file_name(path: &str) -> (r: String)
    ensures
        r@ == file_name_of(path@),
{
    let len = path.unicode_len();
    let mut i: usize = len;
    while i > 0 && !separator(path.get_char(i - 1))
        invariant
            i <= len,
            len == path@.len(),
            forall|j: int| i <= j < len ==> !is_separator(#[trigger] path@[j]),
        decreases i,
    {
        i = i - 1;
    }
    proof {
        lemma_file_name_suffix(path@, i as int);
    }
    String::from_str(path.substring_char(i, len))
}

/// One audio file: where it is, and the name shown for it.
#[derive(Debug)]
pub struct Track {
    pub path: String,
    pub name: String,
}

impl Track {
    /// A track's name is the final segment of its path.
    pub open spec fn wf(&self) -> bool {
        self.name@ == file_name_of(self.path@)
    }

    pub fn new(path: String) -> (t: Track)
        ensures
            t.path@ == path@,
            t.wf(),
    {
        let name = get_file_name(path.as_str());
        Track { name, path }
    }

    /// A copy of the track.
    pub fn duplicate(&self) -> (t: Track)
        ensures
            t.path@ == self.path@,
            t.name@ == self.name@,
    {
        Track { path: self.path.clone(), name: self.name.clone() }
    }
}

} // verus!
