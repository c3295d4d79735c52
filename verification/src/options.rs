use vstd::prelude::*;

verus! {

/// The position of the last occurrence of `c` in `p`, or -1 when `c` does
/// not occur.
pub open spec fn last_index_of(p: Seq<char>, c: char) -> int
    decreases p.len(),
{
    if p.len() == 0 {
        -1
    } else if p.last() == c {
        p.len() - 1
    } else {
        last_index_of(p.drop_last(), c)
    }
}

/// Where the file name of the path `p` starts: right after the last `/`, or
/// at the start of the path when it has no separator.
pub open spec fn file_name_start(p: Seq<char>) -> int {
    last_index_of(p, '/') + 1
}

/// Where the stem of the path `p` ends. The last `.` starts an extension
/// only when it lies inside the file name and is not its first character (a
/// leading dot marks a hidden file, not an extension); a path without such a
/// dot is all stem.
pub open spec fn stem_end(p: Seq<char>) -> int {
    if last_index_of(p, '.') > file_name_start(p) {
        last_index_of(p, '.')
    } else {
        p.len() as int
    }
}

/// The path `p` with its extension replaced by `e`: everything from the
/// extension dot on is dropped, then `.` and `e` are appended. It is meant
/// for a path that names a file; on one whose final component is empty (a
/// trailing separator, an empty path) there is no extension to find and the
/// dot and `e` are appended all the same.
pub open spec fn with_extension(p: Seq<char>, e: Seq<char>) -> Seq<char> {
    p.take(stem_end(p)) + seq!['.'] + e
}

proof fn lemma_last_index_of_range(p: Seq<char>, c: char)
    ensures
        -1 <= last_index_of(p, c) < p.len(),
    decreases p.len(),
{
    if p.len() > 0 && p.last() != c {
        lemma_last_index_of_range(p.drop_last(), c);
    }
}

/// The position of the last occurrence of `c` in `s`, found by scanning
/// from the back.
#[verifier::loop_isolation(false)]
fn find_last(s: &str, c: char) -> (r: Option<usize>)
    ensures
        match r {
            Some(i) => i == last_index_of(s@, c),
            None => last_index_of(s@, c) == -1,
        },
{
    let n: usize = s.unicode_len();
    let mut i: usize = n;
    proof {
        assert(s@.take(n as int) =~= s@);
    }
    while i > 0
        invariant
            i <= n,
            last_index_of(s@, c) == last_index_of(s@.take(i as int), c),
        decreases i,
    {
        i = i - 1;
        let ch = s.get_char(i);
        proof {
            assert(s@.take(i + 1).last() == s@[i as int]);
        }
        if ch == c {
            return Some(i);
        }
        proof {
            assert(s@.take(i + 1).drop_last() =~= s@.take(i as int));
        }
    }
    None
}

/// What the orchestration layer around the engines hands in: the path of
/// the target file, the backup extension, an optional explicit offset and
/// the XOR pattern to apply there.
pub struct Opt {
    /// Path of the file under attack.
    pub filepath: String,
    /// Extension of the side-by-side backup copy of the pristine file.
    pub origin: String,
    /// Byte address to flip; the caller draws one itself when absent.
    pub pos: Option<u64>,
    /// XOR mask to apply at the chosen address.
    pub pattern: u8,
}

impl Opt {
    /// The path of the backup copy of the pristine file: `filepath` with its
    /// extension replaced by `origin`. A path without an extension gets `.`
    /// and `origin` appended; `filepath` is expected to name a file, not a
    /// bare directory.
    pub fn get_original_filepath(&self) -> (r: String)
        ensures
            r@ == with_extension(self.filepath@, self.origin@),
    {
        let path: &str = self.filepath.as_str();
        let n: usize = path.unicode_len();
        proof {
            lemma_last_index_of_range(path@, '/');
            lemma_last_index_of_range(path@, '.');
        }
        let slash = find_last(path, '/');
        let dot = find_last(path, '.');
        let stem_len: usize = match (dot, slash) {
            (Some(d), Some(sl)) => if d > sl + 1 {
                d
            } else {
                n
            },
            (Some(d), None) => if d > 0 {
                d
            } else {
                n
            },
            (None, _) => n,
        };
        assert(stem_len as int == stem_end(path@));
        let stem: &str = path.substring_char(0, stem_len);
        let mut out: String = String::from_str(stem);
        out.append(".");
        out.append(self.origin.as_str());
        proof {
            reveal_strlit(".");
            assert(out@ =~= with_extension(self.filepath@, self.origin@));
        }
        out
    }
}

} // verus!
