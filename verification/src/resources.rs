//! Resource loading: resolving logical resource names against a root
//! directory and validating the bytes read from a resource file.
//!
//! File reads themselves happen outside the library; the validation here
//! takes the outcome of such a read as a plain value and decides what the
//! loader returns for it.  Paths are plain strings whose segments are
//! separated by [`path_sep`].

use vstd::prelude::*;
use vstd::string::*;

use crate::path_sep;

verus! {

/// The ways resource loading can fail.
#[derive(Debug, PartialEq, Eq)]
pub enum ResourceError {
    /// The underlying filesystem read failed; carries the reported reason.
    Io(String),
    /// The file's bytes hold an embedded null byte, so they cannot back a
    /// null-terminated C string.
    FileContainsNil,
    /// The running executable's own location could not be determined, so no
    /// root directory exists to resolve names against.
    FailedToGetExePath,
}

/// Whether some position of `p` holds the path separator.
pub open spec fn contains_sep(p: Seq<char>) -> bool {
    exists|i: int| 0 <= i < p.len() && p[i] == path_sep()
}

/// The index of the last path separator in `p`, or `-1` when there is none.
pub open spec fn last_sep(p: Seq<char>) -> int
    decreases p.len(),
{
    if p.len() == 0 {
        -1
    } else if p[p.len() - 1] == path_sep() {
        p.len() - 1
    } else {
        last_sep(p.drop_last())
    }
}

/// Everything of `p` before its last path separator: the directory that the
/// path's final segment lives in.
pub open spec fn parent_dir(p: Seq<char>) -> Seq<char> {
    p.subrange(0, last_sep(p))
}

/// `last_sep` finds a separator exactly when one exists, and nothing after
/// the found position is a separator.
pub proof fn lemma_last_sep(p: Seq<char>)
    ensures
        -1 <= last_sep(p) < p.len(),
        last_sep(p) >= 0 ==> p[last_sep(p)] == path_sep(),
        forall|j: int| last_sep(p) < j < p.len() ==> p[j] != path_sep(),
        contains_sep(p) <==> last_sep(p) >= 0,
    decreases p.len(),
{
    if p.len() == 0 {
        assert(!contains_sep(p));
    } else if p[p.len() - 1] == path_sep() {
        assert(contains_sep(p));
    } else {
        let q = p.drop_last();
        lemma_last_sep(q);
        assert(forall|j: int| 0 <= j < q.len() ==> q[j] == p[j]);
        if contains_sep(p) {
            let i = choose|i: int| 0 <= i < p.len() && p[i] == path_sep();
            assert(i < p.len() - 1);
            assert(q[i] == path_sep());
            assert(contains_sep(q));
        }
        if contains_sep(q) {
            let i = choose|i: int| 0 <= i < q.len() && q[i] == path_sep();
            assert(p[i] == path_sep());
            assert(contains_sep(p));
        }
    }
}

/// Resolves a logical, slash-separated resource name against a root
/// directory, joining the two with the path separator.  Nothing in the name
/// is interpreted; whatever the filesystem later makes of the joined path is
/// inherited behaviour.
pub fn resource_name_to_path(root_dir: &str, location: &str) -> (r: String)
    ensures
        r@ == root_dir@ + seq![path_sep()] + location@,
{
    let mut path: String = root_dir.to_owned();
    path.append("/");
    path.append(location);
    proof {
        reveal_strlit("/");
        assert(path@ =~= root_dir@ + seq![path_sep()] + location@);
    }
    path
}

/// The index of the last path separator of `s`, or `None` when `s` holds no
/// separator at all.
fn find_last_sep(s: &str) -> (r: Option<usize>)
    ensures
        match r {
            Some(k) => contains_sep(s@) && k == last_sep(s@),
            None => !contains_sep(s@),
        },
{
    let n: usize = s.unicode_len();
    let mut i: usize = n;
    while i > 0
        invariant
            i <= n,
            n == s@.len(),
            forall|j: int| i <= j < n ==> s@[j] != path_sep(),
        decreases i,
    {
        let c = s.get_char(i - 1);
        if c == '/' {
            proof {
                lemma_last_sep(s@);
                assert(0 <= i - 1 < s@.len() && s@[i - 1] == path_sep());
                assert(contains_sep(s@));
            }
            return Some(i - 1);
        }
        i = i - 1;
    }
    proof {
        lemma_last_sep(s@);
    }
    None
}

/// A resource root: the directory all logical resource names are resolved
/// against.  Fixed at construction and never changed.
#[derive(Debug)]
pub struct Resources {
    root_path: String,
}

impl View for Resources {
    type V = Seq<char>;

    closed spec fn view(&self) -> Seq<char> {
        self.root_path@
    }
}

impl Resources {
    /// Builds a resource root from the running executable's path, joined with
    /// a relative subpath.  The executable's location is determined outside
    /// the library and handed in; `None` records that it could not be had.
    /// A path without any separator names no directory, so it gives no root
    /// either.
    pub fn from_relative_exe_path(exe_path: Option<&str>, rel_path: &str) -> (r: Result<
        Resources,
        ResourceError,
    >)
        ensures
            match r {
                Ok(res) => {
                    &&& exe_path matches Some(p)
                    &&& contains_sep(p@)
                    &&& res@ == parent_dir(p@) + seq![path_sep()] + rel_path@
                },
                Err(e) => {
                    &&& e is FailedToGetExePath
                    &&& match exe_path {
                        Some(p) => !contains_sep(p@),
                        None => true,
                    }
                },
            },
    {
        match exe_path {
            None => Err(ResourceError::FailedToGetExePath),
            Some(p) => {
                match find_last_sep(p) {
                    None => Err(ResourceError::FailedToGetExePath),
                    Some(k) => {
                        proof {
                            lemma_last_sep(p@);
                        }
                        let parent = p.substring_char(0, k);
                        let root = resource_name_to_path(parent, rel_path);
                        Ok(Resources { root_path: root })
                    },
                }
            },
        }
    }

    /// The full path of the file backing `resource_name`: the root directory
    /// joined with the name.
    pub fn resource_path(&self, resource_name: &str) -> (r: String)
        ensures
            r@ == self@ + seq![path_sep()] + resource_name@,
    {
        resource_name_to_path(self.root_path.as_str(), resource_name)
    }

    /// Judges the outcome of reading a resource file.  A failed read becomes
    /// `Io` with the reported reason; bytes holding an embedded null become
    /// `FileContainsNil`; otherwise the file's bytes come back exactly as
    /// read, fit for null-terminated C-string interop.
    pub fn load_cstring(&self, read_result: Result<Vec<u8>, String>) -> (r: Result<
        Vec<u8>,
        ResourceError,
    >)
        ensures
            match read_result {
                Err(m) => r matches Err(ResourceError::Io(w)) && w@ == m@,
                Ok(bytes) => {
                    if has_nil(bytes@) {
                        r matches Err(ResourceError::FileContainsNil)
                    } else {
                        r matches Ok(b) && b@ == bytes@
                    }
                },
            },
    {
        match read_result {
            Err(m) => Err(ResourceError::Io(m)),
            Ok(bytes) => {
                let n: usize = bytes.len();
                let mut i: usize = 0;
                while i < n
                    invariant
                        i <= n,
                        n == bytes@.len(),
                        read_result matches Ok(b) && b == bytes,
                        forall|j: int| 0 <= j < i ==> bytes@[j] != 0u8,
                    decreases n - i,
                {
                    if bytes[i] == 0u8 {
                        proof {
                            assert(has_nil(bytes@));
                        }
                        return Err(ResourceError::FileContainsNil);
                    }
                    i = i + 1;
                }
                Ok(bytes)
            },
        }
    }
}

/// Whether `bytes` holds an embedded null byte.
pub open spec fn has_nil(bytes: Seq<u8>) -> bool {
    exists|i: int| 0 <= i < bytes.len() && bytes[i] == 0u8
}

} // verus!
