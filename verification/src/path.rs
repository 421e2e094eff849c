//! Paths as text: joining, the parts that `std::path` computes, and the
//! resolution of a user-typed path against the current directory.
use vstd::prelude::*;
use vstd::string::*;
use crate::text::{opt_view, trim, trim_str, owned, join2, slice_chars};

verus! {

/// `p` is an absolute Unix path.
pub open spec fn is_absolute(p: Seq<char>) -> bool {
    p.len() > 0 && p[0] == '/'
}

/// `base` joined with `p` as `Path::join` does on Unix: an absolute `p`
/// replaces `base`; otherwise `p` is appended, with a `/` between them when
/// `base` is not empty and does not already end in one.
pub open spec fn path_join(base: Seq<char>, p: Seq<char>) -> Seq<char> {
    if is_absolute(p) {
        p
    } else if base.len() > 0 && base.last() != '/' {
        base + seq!['/'] + p
    } else {
        base + p
    }
}

/// The parent of a path as `Path::parent` computes it.
pub uninterp spec fn path_parent(p: Seq<char>) -> Option<Seq<char>>;

/// The last component of a path as `Path::file_name` computes it.
pub uninterp spec fn path_file_name(p: Seq<char>) -> Option<Seq<char>>;

/// The file name without its extension as `Path::file_stem` computes it.
pub uninterp spec fn path_file_stem(p: Seq<char>) -> Option<Seq<char>>;

/// The extension of a path as `Path::extension` computes it.
pub uninterp spec fn path_extension(p: Seq<char>) -> Option<Seq<char>>;

/// `base` joined with `p`.
pub fn join_path(base: &str, p: &str) -> (r: String)
    ensures
        r@ == path_join(base@, p@),
{
    if p.unicode_len() > 0 && p.get_char(0) == '/' {
        return owned(p);
    }
    proof {
        reveal_strlit("/");
    }
    let n = base.unicode_len();
    if n > 0 && base.get_char(n - 1) != '/' {
        let with_sep = join2(base, "/");
        join2(with_sep.as_str(), p)
    } else {
        join2(base, p)
    }
}

/// Calls `Path::parent` on `p`; the answer is named `path_parent` of `p`.
/// A parent is `p` without its final component, so it is shorter than `p`.
#[verifier::external_body]
pub fn parent_of(p: &str) -> (r: Option<String>)
    ensures
        match r {
            Some(q) => path_parent(p@) == Some(q@) && q@.len() < p@.len(),
            None => path_parent(p@) is None,
        },
{
    std::path::Path::new(p).parent().map(|q| q.to_string_lossy().into_owned())
}

/// Calls `Path::file_name` on `p`; the answer is named `path_file_name` of `p`.
#[verifier::external_body]
pub fn file_name_of(p: &str) -> (r: Option<String>)
    ensures
        match r {
            Some(q) => path_file_name(p@) == Some(q@),
            None => path_file_name(p@) is None,
        },
{
    std::path::Path::new(p).file_name().map(|q| q.to_string_lossy().into_owned())
}

/// Calls `Path::file_stem` on `p`; the answer is named `path_file_stem` of `p`.
#[verifier::external_body]
pub fn file_stem_of(p: &str) -> (r: Option<String>)
    ensures
        match r {
            Some(q) => path_file_stem(p@) == Some(q@),
            None => path_file_stem(p@) is None,
        },
{
    std::path::Path::new(p).file_stem().map(|q| q.to_string_lossy().into_owned())
}

/// Calls `Path::extension` on `p`; the answer is named `path_extension` of `p`.
#[verifier::external_body]
pub fn extension_of(p: &str) -> (r: Option<String>)
    ensures
        match r {
            Some(q) => path_extension(p@) == Some(q@),
            None => path_extension(p@) is None,
        },
{
    std::path::Path::new(p).extension().map(|q| q.to_string_lossy().into_owned())
}

/// What a user-typed path denotes: the trimmed input, with `~` and `~/...`
/// expanded against `home`, and relative paths taken from `current_dir`.
pub open spec fn resolved_path(current_dir: Seq<char>, input: Seq<char>, home: Option<Seq<char>>) -> Result<Seq<char>, Seq<char>> {
    let raw = trim(input);
    if raw.len() == 0 {
        Err("empty path"@)
    } else if raw[0] == '~' {
        if raw == "~"@ || (raw.len() >= 2 && raw[1] == '/') {
            match home {
                None => Err("HOME is not set"@),
                Some(h) => if raw == "~"@ {
                    Ok(h)
                } else {
                    Ok(path_join(h, raw.skip(2)))
                },
            }
        } else {
            Err("~user expansion is not supported"@)
        }
    } else if is_absolute(raw) {
        Ok(raw)
    } else {
        Ok(path_join(current_dir, raw))
    }
}

/// Resolves a user-typed path; `home` is the value of `HOME`, if set.
pub fn resolve_path(current_dir: &str, input: &str, home: Option<String>) -> (r: Result<String, String>)
    ensures
        match r {
            Ok(p) => resolved_path(current_dir@, input@, opt_view(home)) == Ok::<Seq<char>, Seq<char>>(p@),
            Err(e) => resolved_path(current_dir@, input@, opt_view(home)) == Err::<Seq<char>, Seq<char>>(e@),
        },
{
    proof {
        reveal_strlit("~");
    }
    let raw = trim_str(input);
    let n = raw.unicode_len();
    if n == 0 {
        return Err(owned("empty path"));
    }
    if raw.get_char(0) == '~' {
        let bare = n == 1;
        if bare || (n >= 2 && raw.get_char(1) == '/') {
            assert(bare == (raw@ == "~"@)) by {
                if bare {
                    assert(raw@ =~= "~"@);
                }
            }
            match home {
                None => return Err(owned("HOME is not set")),
                Some(h) => {
                    if bare {
                        return Ok(h);
                    }
                    let rest = slice_chars(raw.as_str(), 2, n);
                    assert(rest@ =~= raw@.skip(2));
                    return Ok(join_path(h.as_str(), rest.as_str()));
                },
            }
        } else {
            assert(raw@ != "~"@);
            return Err(owned("~user expansion is not supported"));
        }
    }
    if raw.get_char(0) == '/' {
        Ok(raw)
    } else {
        Ok(join_path(current_dir, raw.as_str()))
    }
}

} // verus!
