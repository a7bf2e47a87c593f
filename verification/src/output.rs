//! Resolving where the downloaded image goes: a default location under the
//! working directory, or a user-supplied override split into its parent
//! directory and file name.

use vstd::prelude::*;
use vstd::string::StringExecFns;
use crate::errors::PathError;

verus! {

/// A resolved output location.  The directory is created (recursively) by
/// the caller that owns filesystem access before the file is opened.
pub struct OutputTarget {
    /// The directory the output file lives in; must exist before writing.
    pub dir: String,
    /// The bare file name inside `dir`.
    pub file_name: String,
    /// The full path of the output file.
    pub full_path: String,
}

/// `s` without its trailing `/` characters.
pub open spec fn strip_trailing_slashes(s: Seq<char>) -> Seq<char>
    decreases s.len(),
{
    if s.len() == 0 {
        s
    } else if s[s.len() - 1] == '/' {
        strip_trailing_slashes(s.drop_last())
    } else {
        s
    }
}

/// The index of the last `/` in `s`, or `-1` when there is none.
pub open spec fn last_slash_index(s: Seq<char>) -> int
    decreases s.len(),
{
    if s.len() == 0 {
        -1
    } else if s[s.len() - 1] == '/' {
        s.len() - 1
    } else {
        last_slash_index(s.drop_last())
    }
}

/// How a user-supplied override splits into a directory and a file name:
/// trailing separators are ignored (as the standard path type ignores
/// them), then the override splits at its last `/`.  `None` when the
/// override has no parent segment (no `/` before the file name) or no
/// file-name segment (nothing, or only the relative markers `.` and `..`,
/// after the last `/`); a lone leading `/` makes the root the parent.
pub open spec fn split_override(p: Seq<char>) -> Option<(Seq<char>, Seq<char>)> {
    let q = strip_trailing_slashes(p);
    let i = last_slash_index(q);
    if i == -1 {
        None
    } else {
        let name = q.subrange(i + 1, q.len() as int);
        if name == seq!['.'] || name == seq!['.', '.'] {
            None
        } else if i == 0 {
            Some((seq!['/'], name))
        } else {
            Some((q.subrange(0, i), name))
        }
    }
}

/// How many leading characters of `p` remain once its trailing `/`
/// characters are dropped.
fn strip_len(p: &str) -> (e: usize)
    ensures
        e <= p@.len(),
        strip_trailing_slashes(p@) == p@.subrange(0, e as int),
{
    let n = p.unicode_len();
    let mut e = n;
    proof {
        assert(p@.subrange(0, n as int) =~= p@);
    }
    loop
        invariant
            e <= n,
            n == p@.len(),
            strip_trailing_slashes(p@) == strip_trailing_slashes(p@.subrange(0, e as int)),
        decreases e,
    {
        if e == 0 {
            proof {
                assert(p@.subrange(0, 0) =~= Seq::<char>::empty());
            }
            return 0;
        }
        let c = p.get_char(e - 1);
        proof {
            let q = p@.subrange(0, e as int);
            assert(q.len() == e);
            assert(q[e - 1] == p@[e - 1]);
            if c == '/' {
                assert(q.drop_last() =~= p@.subrange(0, e - 1));
            }
        }
        if c != '/' {
            return e;
        }
        e = e - 1;
    }
}

/// The position of the last `/` of `p`, `None` when `p` has none.
fn find_last_slash(p: &str) -> (r: Option<usize>)
    ensures
        match r {
            None => last_slash_index(p@) == -1,
            Some(i) => last_slash_index(p@) == i && i < p@.len(),
        },
{
    let n = p.unicode_len();
    let mut i = n;
    proof {
        assert(p@.subrange(0, n as int) =~= p@);
    }
    while i > 0
        invariant
            i <= n,
            n == p@.len(),
            last_slash_index(p@) == last_slash_index(p@.subrange(0, i as int)),
        decreases i,
    {
        let c = p.get_char(i - 1);
        proof {
            let head = p@.subrange(0, i as int);
            assert(head.len() == i);
            assert(head[i - 1] == p@[i - 1]);
            if c != '/' {
                assert(head.drop_last() =~= p@.subrange(0, i - 1));
            }
        }
        if c == '/' {
            return Some(i - 1);
        }
        i = i - 1;
    }
    proof {
        assert(p@.subrange(0, 0) =~= Seq::<char>::empty());
    }
    None
}

/// Whether `name` is one of the relative path markers, `.` or `..`, which
/// cannot serve as an output file name.
fn is_relative_marker(name: &str) -> (r: bool)
    ensures
        r == (name@ == seq!['.'] || name@ == seq!['.', '.']),
{
    let n = name.unicode_len();
    if n == 1 {
        let r = name.get_char(0) == '.';
        proof {
            if r {
                assert(name@ =~= seq!['.']);
            }
        }
        r
    } else if n == 2 {
        let r = name.get_char(0) == '.' && name.get_char(1) == '.';
        proof {
            if r {
                assert(name@ =~= seq!['.', '.']);
            }
        }
        r
    } else {
        false
    }
}

/// Resolves output locations, rooted at an injected working directory so
/// that default resolution does not depend on ambient process state.
pub struct OutputPathResolver {
    /// The working directory that default resolution is rooted at.
    pub cwd: String,
}

impl OutputPathResolver {
    /// A resolver rooted at `cwd`.
    pub fn new(cwd: String) -> (r: OutputPathResolver)
        ensures
            r.cwd == cwd,
    {
        OutputPathResolver { cwd }
    }

    /// Resolves the output location.  Without an override, the file
    /// `<default_base_name>.png` goes into the `comics` directory under the
    /// working directory.  With an override, the override's last path
    /// segment (trailing separators ignored) is the file name, verbatim,
    /// and what precedes it is the directory; an override with no parent or
    /// no file-name segment is rejected rather than silently falling back
    /// to the default.
    pub fn resolve(&self, default_base_name: &str, override_path: Option<&str>) -> (r: Result<
        OutputTarget,
        PathError,
    >)
        ensures
            override_path is None ==> (r matches Ok(t) && t.dir@ == self.cwd@ + "/comics"@
                && t.file_name@ == default_base_name@ + ".png"@ && t.full_path@ == self.cwd@
                + "/comics/"@ + default_base_name@ + ".png"@),
            override_path matches Some(p) ==> match split_override(p@) {
                Some((d, n)) => r matches Ok(t) && t.dir@ == d && t.file_name@ == n
                    && t.full_path@ == strip_trailing_slashes(p@),
                None => r matches Err(e) && e is InvalidOutputPath,
            },
    {
        match override_path {
            None => {
                let mut dir = self.cwd.clone();
                dir.append("/comics");
                let mut file_name = String::from_str(default_base_name);
                file_name.append(".png");
                let mut full = dir.clone();
                full.append("/");
                full.append(file_name.as_str());
                proof {
                    reveal_strlit("/comics");
                    reveal_strlit("/");
                    reveal_strlit("/comics/");
                    assert(full@ =~= self.cwd@ + "/comics/"@ + default_base_name@ + ".png"@);
                }
                Ok(OutputTarget { dir, file_name, full_path: full })
            },
            Some(p) => {
                let e = strip_len(p);
                let stripped = p.substring_char(0, e);
                match find_last_slash(stripped) {
                    None => Err(PathError::InvalidOutputPath),
                    Some(i) => {
                        let name = stripped.substring_char(i + 1, e);
                        if is_relative_marker(name) {
                            Err(PathError::InvalidOutputPath)
                        } else {
                            let dir = if i == 0 {
                                proof {
                                    reveal_strlit("/");
                                    assert("/"@ =~= seq!['/']);
                                }
                                String::from_str("/")
                            } else {
                                String::from_str(stripped.substring_char(0, i))
                            };
                            Ok(
                                OutputTarget {
                                    dir,
                                    file_name: String::from_str(name),
                                    full_path: String::from_str(stripped),
                                },
                            )
                        }
                    },
                }
            },
        }
    }
}

} // verus!
