//! Validation of caller-supplied filesystem path strings.
//!
//! Paths cross a trust boundary from a less-trusted caller, so every entry
//! point that accepts one rejects unsafe or malformed strings before any
//! part of the crate touches the filesystem: the empty string, strings over
//! the length ceiling, and strings holding the parent-directory traversal
//! token `..`.

use vstd::prelude::*;
use vstd::std_specs::iter::IteratorSpec;
use vstd::string::StringSliceAdditionalSpecFns;

verus! {

/// Longest accepted path, measured in characters.
pub const MAX_PATH_LEN: usize = 1024;

/// The byte value of `'.'`: two adjacent ones form the traversal token.
pub const DOT_BYTE: u8 = 46;

/// Holds when two adjacent `.` bytes occur somewhere in `bs`. On a UTF-8
/// encoding this is exactly "the string contains the `..` token": a `.`
/// byte encodes nothing but the character `.`.
pub open spec fn has_dotdot(bs: Seq<u8>) -> bool {
    exists|j: int| 0 <= j && j + 1 < bs.len() && #[trigger] bs[j] == DOT_BYTE && bs[j + 1] == DOT_BYTE
}

/// A path is accepted exactly when it is non-empty, within the length
/// ceiling, and free of the `..` traversal token.
pub open spec fn path_ok(s: &str) -> bool {
    &&& s@.len() > 0
    &&& s@.len() <= MAX_PATH_LEN
    &&& !has_dotdot(s.spec_bytes())
}

/// The reason `validate_path` gives for rejecting `s`: each message
/// stands for its own failed check, with the checks applied in order —
/// emptiness, then the traversal token, then the length ceiling.
pub open spec fn path_rejection(s: &str, m: Seq<char>) -> bool {
    ||| (s@.len() == 0 && m == "Path cannot be empty"@)
    ||| (s@.len() > 0 && has_dotdot(s.spec_bytes()) && m
        == "Path cannot contain '..' for security reasons"@)
    ||| (s@.len() > 0 && !has_dotdot(s.spec_bytes()) && s@.len() > MAX_PATH_LEN && m
        == "Path is too long (max 1024 characters)"@)
}

/// Scans the bytes of `path` for two adjacent `.` bytes.
fn contains_dotdot(bs: &[u8]) -> (r: bool)
    ensures
        r == has_dotdot(bs@),
{
    if bs.len() < 1 {
        return false;
    }
    let mut i: usize = 0;
    let mut found = false;
    while i < bs.len() - 1
        invariant
            1 <= bs@.len(),
            i < bs@.len(),
            found == exists|j: int|
                0 <= j < i && j + 1 < bs@.len() && #[trigger] bs@[j] == DOT_BYTE && bs@[j + 1]
                    == DOT_BYTE,
        decreases bs@.len() - i,
    {
        if bs[i] == DOT_BYTE && bs[i + 1] == DOT_BYTE {
            found = true;
        }
        i = i + 1;
    }
    assert(found == has_dotdot(bs@)) by {
        if has_dotdot(bs@) {
            let j = choose|j: int|
                0 <= j && j + 1 < bs@.len() && #[trigger] bs@[j] == DOT_BYTE && bs@[j + 1]
                    == DOT_BYTE;
            assert(0 <= j < i && j + 1 < bs@.len() && bs@[j] == DOT_BYTE && bs@[j + 1]
                == DOT_BYTE);
        }
    }
    found
}

/// Counts the characters of `s`, capped just past `cap`: the character
/// count itself when it does not exceed `cap`, and `cap + 1` otherwise.
fn char_count_capped(s: &str, cap: usize) -> (r: usize)
    requires
        cap < usize::MAX,
    ensures
        s@.len() <= cap ==> r == s@.len(),
        s@.len() > cap ==> r == cap + 1,
{
    broadcast use vstd::string::next_postcondition;
    broadcast use vstd::string::axiom_spec_iter;

    let mut it = s.chars();
    let mut n: usize = 0;
    let mut done = false;
    let ghost mut i: int = 0;
    proof {
        assert(s@.skip(0) =~= s@);
    }
    while !done
        invariant
            cap < usize::MAX,
            0 <= i <= s@.len(),
            it.remaining() == s@.skip(i),
            done ==> i == s@.len(),
            n as int == if i <= cap as int {
                i
            } else {
                cap as int + 1
            },
        decreases s@.len() - i + (if done {
            0int
        } else {
            1int
        }),
    {
        let ghost pre = it;
        match it.next() {
            None => {
                proof {
                    assert(pre.remaining().len() == 0);
                    assert(s@.skip(i).len() == 0);
                }
                done = true;
            },
            Some(_c) => {
                proof {
                    assert(pre.remaining().len() > 0);
                    assert(it.remaining() =~= s@.skip(i + 1)) by {
                        assert(it.remaining() == pre.remaining().drop_first());
                        assert(s@.skip(i).drop_first() =~= s@.skip(i + 1));
                    }
                    i = i + 1;
                }
                if n <= cap {
                    n = n + 1;
                }
            },
        }
    }
    n
}

/// Decides whether a caller-supplied path string may reach the filesystem
/// layer. Pure and stateless: it performs no I/O. On rejection the result
/// carries the reason, with the checks applied in a fixed order: emptiness,
/// then the traversal token, then the length ceiling.
pub fn validate_path(path: &str) -> (r: Result<(), String>)
    ensures
        r is Ok <==> path_ok(path),
        r matches Err(m) ==> path_rejection(path, m@),
{
    if path.is_empty() {
        return Err("Path cannot be empty".to_owned());
    }
    if contains_dotdot(path.as_bytes()) {
        return Err("Path cannot contain '..' for security reasons".to_owned());
    }
    if char_count_capped(path, MAX_PATH_LEN) > MAX_PATH_LEN {
        return Err("Path is too long (max 1024 characters)".to_owned());
    }
    Ok(())
}

} // verus!
