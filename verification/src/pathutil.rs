//! Save-path resolution, on paths carried as strings: extracting a
//! file name, swapping an extension, joining a directory with a file
//! name, and the rule that picks the final output path of a save.
//!
//! The rules here are purely separator-based, with `/` as the one
//! separator: the part after the last `/` is the file name, whatever
//! it spells.  The standard library's path routines differ in two
//! corners — they ignore one trailing separator, and they treat a
//! final `..` component as no file name — and this library does not
//! reproduce that.

use vstd::prelude::*;

use crate::errors::RusimgError;

verus! {

/// The largest index at which `c` occurs in `s`, or -1 when it does
/// not occur.
pub open spec fn last_index_of(s: Seq<char>, c: char) -> int
    decreases s.len(),
{
    if s.len() == 0 {
        -1
    } else if s[s.len() - 1] == c {
        s.len() - 1
    } else {
        last_index_of(s.drop_last(), c)
    }
}

/// The part of `s` after the last `/`, or nothing when that part is
/// empty (the path ends in a separator, or is itself empty).
pub open spec fn spec_file_name(s: Seq<char>) -> Option<Seq<char>> {
    let name = s.subrange(last_index_of(s, '/') + 1, s.len() as int);
    if name.len() == 0 {
        None
    } else {
        Some(name)
    }
}

/// A file name without its extension: everything before the last `.`,
/// except that a name with no dot, or only a leading dot, is kept
/// whole.
pub open spec fn spec_strip_ext(name: Seq<char>) -> Seq<char> {
    let j = last_index_of(name, '.');
    if j <= 0 {
        name
    } else {
        name.subrange(0, j)
    }
}

/// The path with the extension of its file name replaced by `ext`.  A
/// path without a file name is returned unchanged; an empty `ext`
/// leaves the stem bare.
pub open spec fn spec_with_extension(s: Seq<char>, ext: Seq<char>) -> Seq<char> {
    match spec_file_name(s) {
        None => s,
        Some(name) => {
            let prefix = s.subrange(0, s.len() - name.len());
            if ext.len() == 0 {
                prefix + spec_strip_ext(name)
            } else {
                prefix + spec_strip_ext(name) + seq!['.'] + ext
            }
        },
    }
}

/// A directory path joined with a file name by a single separator.
pub open spec fn spec_join(dir: Seq<char>, name: Seq<char>) -> Seq<char> {
    if dir.len() == 0 {
        name
    } else if dir[dir.len() - 1] == '/' {
        dir + name
    } else {
        dir + seq!['/'] + name
    }
}

/// The extension of the path's file name: the part after the last dot,
/// when that dot is neither absent nor leading.
pub open spec fn spec_extension_of(s: Seq<char>) -> Option<Seq<char>> {
    match spec_file_name(s) {
        None => None,
        Some(name) => {
            let j = last_index_of(name, '.');
            if j <= 0 {
                None
            } else {
                Some(name.subrange(j + 1, name.len() as int))
            }
        },
    }
}

/// Why no save path could be resolved.
pub enum SavePathError {
    /// A source path was required (directory destination, or no
    /// destination at all) but absent.
    SourceMissing,
    /// The source path carries no file name to join onto a directory.
    NoFilename,
}

/// The output path a save resolves to: a directory destination is
/// joined with the source's file name and given the new extension; a
/// file destination is taken verbatim; no destination reuses the
/// source path with the extension swapped.
pub open spec fn spec_resolve(
    source: Option<Seq<char>>,
    dest: Option<Seq<char>>,
    dest_is_dir: bool,
    ext: Seq<char>,
) -> Result<Seq<char>, SavePathError> {
    match dest {
        Some(d) => {
            if dest_is_dir {
                match source {
                    None => Err(SavePathError::SourceMissing),
                    Some(s) => match spec_file_name(s) {
                        None => Err(SavePathError::NoFilename),
                        Some(name) => Ok(spec_with_extension(spec_join(d, name), ext)),
                    },
                }
            } else {
                Ok(d)
            }
        },
        None => match source {
            None => Err(SavePathError::SourceMissing),
            Some(s) => Ok(spec_with_extension(s, ext)),
        },
    }
}

/// Find the last occurrence of `c` in `s`.
pub fn find_last_char(s: &str, c: char) -> (r: Option<usize>)
    ensures
        match r {
            Some(i) => 0 <= i < s@.len() && last_index_of(s@, c) == i,
            None => last_index_of(s@, c) == -1,
        },
{
    let n = s.unicode_len();
    let mut i = n;
    proof {
        assert(s@.take(n as int) =~= s@);
    }
    while i > 0
        invariant
            i <= n,
            n == s@.len(),
            last_index_of(s@, c) == last_index_of(s@.take(i as int), c),
        decreases i,
    {
        let ch = s.get_char(i - 1);
        proof {
            assert(s@.take(i as int).len() == i);
            assert(s@.take(i as int)[i - 1] == s@[i - 1]);
            assert(s@.take(i as int).drop_last() =~= s@.take(i - 1));
        }
        if ch == c {
            return Some(i - 1);
        }
        i = i - 1;
    }
    proof {
        assert(s@.take(0).len() == 0);
    }
    None
}

/// Report whether two strings hold the same characters.
pub fn str_eq(a: &str, b: &str) -> (r: bool)
    ensures
        r == (a@ == b@),
{
    let na = a.unicode_len();
    let nb = b.unicode_len();
    if na != nb {
        proof {
            assert(a@ != b@) by {
                if a@ == b@ {
                    assert(a@.len() == b@.len());
                }
            }
        }
        return false;
    }
    let mut i: usize = 0;
    while i < na
        invariant
            i <= na,
            na == a@.len(),
            na == b@.len(),
            forall|j: int| 0 <= j < i ==> a@[j] == b@[j],
        decreases na - i,
    {
        if s_neq(a.get_char(i), b.get_char(i)) {
            return false;
        }
        i = i + 1;
    }
    proof {
        assert(a@ =~= b@);
    }
    true
}

/// Report whether two characters differ.
fn s_neq(x: char, y: char) -> (r: bool)
    ensures
        r == (x != y),
{
    x != y
}

/// The file name of a path, when it has one.
pub fn file_name_of(s: &str) -> (r: Option<String>)
    ensures
        match r {
            Some(name) => spec_file_name(s@) == Some(name@),
            None => spec_file_name(s@) is None,
        },
{
    let n = s.unicode_len();
    let start = match find_last_char(s, '/') {
        Some(i) => i + 1,
        None => 0,
    };
    if start == n {
        proof {
            assert(s@.subrange(last_index_of(s@, '/') + 1, s@.len() as int).len() == 0);
        }
        None
    } else {
        Some(String::from_str(s.substring_char(start, n)))
    }
}

/// The path with the extension of its file name replaced by `ext`.
pub fn with_extension_str(s: &str, ext: &str) -> (r: String)
    ensures
        r@ == spec_with_extension(s@, ext@),
{
    let n = s.unicode_len();
    let start = match find_last_char(s, '/') {
        Some(i) => i + 1,
        None => 0,
    };
    if start == n {
        proof {
            assert(s@.subrange(last_index_of(s@, '/') + 1, s@.len() as int).len() == 0);
        }
        return String::from_str(s);
    }
    let name = s.substring_char(start, n);
    proof {
        assert(spec_file_name(s@) == Some(name@));
        assert(s@.len() - name@.len() == start);
    }
    let stem_end = match find_last_char(name, '.') {
        Some(j) => {
            if j > 0 {
                j
            } else {
                name.unicode_len()
            }
        },
        None => name.unicode_len(),
    };
    proof {
        assert(name@.subrange(0, name@.len() as int) =~= name@);
        assert(spec_strip_ext(name@) == name@.subrange(0, stem_end as int));
    }
    let mut out = String::from_str(s.substring_char(0, start));
    out.append(name.substring_char(0, stem_end));
    if ext.unicode_len() > 0 {
        out.append(".");
        out.append(ext);
        proof {
            reveal_strlit(".");
            assert("."@ =~= seq!['.']);
        }
    }
    out
}

/// Join a directory path and a file name with a single separator.
pub fn join_path(dir: &str, name: &str) -> (r: String)
    ensures
        r@ == spec_join(dir@, name@),
{
    let n = dir.unicode_len();
    if n == 0 {
        String::from_str(name)
    } else if dir.get_char(n - 1) == '/' {
        String::from_str(dir).concat(name)
    } else {
        proof {
            reveal_strlit("/");
            assert("/"@ =~= seq!['/']);
        }
        String::from_str(dir).concat("/").concat(name)
    }
}

/// The extension of the path's file name, when it has one.
pub fn extension_of(s: &str) -> (r: Option<String>)
    ensures
        match r {
            Some(e) => spec_extension_of(s@) == Some(e@),
            None => spec_extension_of(s@) is None,
        },
{
    let n = s.unicode_len();
    let start = match find_last_char(s, '/') {
        Some(i) => i + 1,
        None => 0,
    };
    if start == n {
        proof {
            assert(s@.subrange(last_index_of(s@, '/') + 1, s@.len() as int).len() == 0);
        }
        return None;
    }
    let name = s.substring_char(start, n);
    proof {
        assert(spec_file_name(s@) == Some(name@));
    }
    match find_last_char(name, '.') {
        Some(j) => {
            if j > 0 {
                let m = name.unicode_len();
                Some(String::from_str(name.substring_char(j + 1, m)))
            } else {
                None
            }
        },
        None => None,
    }
}

/// Resolve the final output path of a save, per the documented rule.
pub fn resolve_save_path(
    source: &Option<String>,
    dest: &Option<String>,
    dest_is_dir: bool,
    ext: &str,
) -> (r: Result<String, RusimgError>)
    ensures
        match spec_resolve(
            match source {
                Some(s) => Some(s@),
                None => None,
            },
            match dest {
                Some(d) => Some(d@),
                None => None,
            },
            dest_is_dir,
            ext@,
        ) {
            Ok(p) => r matches Ok(rp) && rp@ == p,
            Err(SavePathError::SourceMissing) => r == Err::<String, RusimgError>(
                RusimgError::SourcePathMustBeSpecified,
            ),
            Err(SavePathError::NoFilename) => (r matches Err(e) && e matches
                RusimgError::FailedToGetFilename(q) && Some(q@) == match source {
                Some(s) => Some(s@),
                None => None::<Seq<char>>,
            }),
        },
{
    match dest {
        Some(d) => {
            if dest_is_dir {
                match source {
                    None => Err(RusimgError::SourcePathMustBeSpecified),
                    Some(src) => {
                        match file_name_of(src.as_str()) {
                            None => Err(RusimgError::FailedToGetFilename(src.clone())),
                            Some(name) => {
                                let joined = join_path(d.as_str(), name.as_str());
                                Ok(with_extension_str(joined.as_str(), ext))
                            },
                        }
                    },
                }
            } else {
                Ok(d.clone())
            }
        },
        None => {
            match source {
                None => Err(RusimgError::SourcePathMustBeSpecified),
                Some(src) => Ok(with_extension_str(src.as_str(), ext)),
            }
        },
    }
}

} // verus!
