//! Discovery: decide, for each entry of a directory listing, whether it is
//! a candidate image file (a regular file whose extension matches "png",
//! case-sensitively) or a subdirectory to walk into. The caller reads the
//! directory listings and recurses; a directory it cannot read contributes
//! no entries, so the walk never aborts.

use vstd::prelude::*;

verus! {

/// One entry of a directory listing, as plain values.
pub struct DirEntry {
    /// The entry's path, with `/` separating components.
    pub path: String,
    /// Whether the entry is a directory.
    pub is_dir: bool,
}

/// Whether a path names a file with extension "png": its final component
/// ends in ".png" and has at least one character before that dot (a file
/// name that is nothing but ".png" has no extension). The match is
/// case-sensitive and exact.
pub open spec fn is_png_path(s: Seq<char>) -> bool {
    &&& s.len() >= 5
    &&& s[s.len() - 4] == '.'
    &&& s[s.len() - 3] == 'p'
    &&& s[s.len() - 2] == 'n'
    &&& s[s.len() - 1] == 'g'
    &&& s[s.len() - 5] != '/'
}

/// The paths of the non-directory entries whose extension matches "png",
/// in listing order.
pub open spec fn png_files_of(s: Seq<DirEntry>) -> Seq<Seq<char>>
    decreases s.len(),
{
    if s.len() == 0 {
        Seq::empty()
    } else {
        let rest = png_files_of(s.drop_last());
        let e = s.last();
        if !e.is_dir && is_png_path(e.path@) {
            rest.push(e.path@)
        } else {
            rest
        }
    }
}

/// The paths of the directory entries, in listing order.
pub open spec fn subdirs_of(s: Seq<DirEntry>) -> Seq<Seq<char>>
    decreases s.len(),
{
    if s.len() == 0 {
        Seq::empty()
    } else {
        let rest = subdirs_of(s.drop_last());
        let e = s.last();
        if e.is_dir {
            rest.push(e.path@)
        } else {
            rest
        }
    }
}

/// Check whether a path names a file with extension "png".
pub fn has_png_extension(path: &str) -> (r: bool)
    ensures
        r == is_png_path(path@),
{
    let n = path.unicode_len();
    if n < 5 {
        return false;
    }
    path.get_char(n - 4) == '.' && path.get_char(n - 3) == 'p' && path.get_char(n - 2) == 'n'
        && path.get_char(n - 1) == 'g' && path.get_char(n - 5) != '/'
}

/// Split a directory listing into the candidate image files and the
/// subdirectories to walk into, each in listing order.
pub fn classify_entries(entries: &Vec<DirEntry>) -> (r: (Vec<String>, Vec<String>))
    ensures
        r.0@.map_values(|p: String| p@) == png_files_of(entries@),
        r.1@.map_values(|p: String| p@) == subdirs_of(entries@),
{
    let mut pngs: Vec<String> = Vec::new();
    let mut dirs: Vec<String> = Vec::new();
    let n = entries.len();
    let mut i: usize = 0;
    while i < n
        invariant
            0 <= i <= n,
            n == entries@.len(),
            pngs@.map_values(|p: String| p@) == png_files_of(entries@.take(i as int)),
            dirs@.map_values(|p: String| p@) == subdirs_of(entries@.take(i as int)),
        decreases n - i,
    {
        proof {
            assert(entries@.take(i + 1).drop_last() =~= entries@.take(i as int));
            assert(entries@.take(i + 1).last() == entries@[i as int]);
        }
        let e = &entries[i];
        if e.is_dir {
            let ghost old_dirs = dirs@;
            dirs.push(e.path.clone());
            proof {
                assert(dirs@.map_values(|p: String| p@) =~= old_dirs.map_values(
                    |p: String| p@,
                ).push(e.path@));
            }
        } else if has_png_extension(e.path.as_str()) {
            let ghost old_pngs = pngs@;
            pngs.push(e.path.clone());
            proof {
                assert(pngs@.map_values(|p: String| p@) =~= old_pngs.map_values(
                    |p: String| p@,
                ).push(e.path@));
            }
        }
        i += 1;
    }
    proof {
        assert(entries@.take(n as int) =~= entries@);
    }
    (pngs, dirs)
}

} // verus!
