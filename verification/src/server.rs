//! Payload rules of the control surface.
//!
//! The HTTP transport itself stays outside; what is specified here is what
//! the handlers do with the payloads: extracting the query argument of a
//! speak or file request from the request line, and bounding the size of
//! an uploaded firmware image.

use vstd::prelude::*;

verus! {

/// Maximum accepted size, in bytes, of an uploaded payload.
pub const MAX_UPDATE_LEN: usize = 2048 * 1024;

/// `pat` occurs in `s` starting at `i`.
pub open spec fn match_at(s: Seq<char>, pat: Seq<char>, i: int) -> bool {
    0 <= i && i + pat.len() <= s.len() && s.subrange(i, i + pat.len()) == pat
}

/// Index of the first occurrence of `pat` in `s`, when there is one.
pub fn find_first(s: &str, pat: &str) -> (r: Option<usize>)
    ensures
        (r matches Some(i) ==> match_at(s@, pat@, i as int) && forall|m: int|
            0 <= m < i ==> !match_at(s@, pat@, m)),
        r is None ==> forall|i: int| !match_at(s@, pat@, i),
{
    let n = s.unicode_len();
    let m = pat.unicode_len();
    if m > n {
        return None;
    }
    let mut i: usize = 0;
    while i <= n - m
        invariant
            0 <= i <= n - m + 1,
            m <= n,
            n == s@.len(),
            m == pat@.len(),
            forall|i0: int| 0 <= i0 < i ==> !match_at(s@, pat@, i0),
        decreases n - m + 1 - i,
    {
        let mut same = true;
        let mut k: usize = 0;
        while same && k < m
            invariant
                0 <= k <= m,
                i + m <= n,
                n == s@.len(),
                m == pat@.len(),
                same ==> forall|k0: int| 0 <= k0 < k ==> s@[i + k0] == #[trigger] pat@[k0],
                !same ==> m > 0 && !match_at(s@, pat@, i as int),
            decreases 2 * (m - k) + (if same { 1int } else { 0int }),
        {
            if s.get_char(i + k) != pat.get_char(k) {
                same = false;
                proof {
                    if match_at(s@, pat@, i as int) {
                        assert(s@.subrange(i as int, i + pat@.len())[k as int] == s@[i + k]);
                    }
                }
            } else {
                k = k + 1;
            }
        }
        if same {
            proof {
                assert(s@.subrange(i as int, i + pat@.len()) =~= pat@);
            }
            return Some(i);
        }
        i = i + 1;
    }
    proof {
        assert forall|i0: int| !match_at(s@, pat@, i0) by {
            if match_at(s@, pat@, i0) {
                assert(0 <= i0 <= n - m);
            }
        }
    }
    None
}

/// The text of the request line after the first occurrence of the marker,
/// or `None` when the marker does not occur.
fn text_after_marker(uri: &str, marker: &str) -> (r: Option<String>)
    ensures
        (r matches Some(t) ==> exists|i: int|
            #[trigger] match_at(uri@, marker@, i) && t@ == uri@.subrange(
                i + marker@.len(),
                uri@.len() as int,
            ) && (forall|m: int| 0 <= m < i ==> !match_at(uri@, marker@, m))),
        r is None ==> forall|i: int| !match_at(uri@, marker@, i),
{
    match find_first(uri, marker) {
        Some(i) => {
            proof {
                assert(match_at(uri@, marker@, i as int));
            }
            let end = uri.unicode_len();
            let tail = uri.substring_char(i + marker.unicode_len(), end);
            Some(tail.to_owned())
        },
        None => None,
    }
}

/// The message of a speak request: everything after the first `?msg=` of
/// the request line, or `None` when no message argument is present.
pub fn say_text(uri: &str) -> (r: Option<String>)
    ensures
        (r matches Some(t) ==> exists|i: int|
            #[trigger] match_at(uri@, "?msg="@, i) && t@ == uri@.subrange(
                i + "?msg="@.len(),
                uri@.len() as int,
            ) && (forall|m: int| 0 <= m < i ==> !match_at(uri@, "?msg="@, m))),
        r is None ==> forall|i: int| !match_at(uri@, "?msg="@, i),
{
    text_after_marker(uri, "?msg=")
}

/// The file name of a file read or write request: everything after the
/// first `?name=` of the request line, or `None` when no name argument is
/// present.
pub fn file_name_arg(uri: &str) -> (r: Option<String>)
    ensures
        (r matches Some(t) ==> exists|i: int|
            #[trigger] match_at(uri@, "?name="@, i) && t@ == uri@.subrange(
                i + "?name="@.len(),
                uri@.len() as int,
            ) && (forall|m: int| 0 <= m < i ==> !match_at(uri@, "?name="@, m))),
        r is None ==> forall|i: int| !match_at(uri@, "?name="@, i),
{
    text_after_marker(uri, "?name=")
}

/// Whether an uploaded payload of the given size is accepted; anything
/// above the configured maximum is rejected as oversize.
pub fn accept_payload_len(len: usize) -> (ok: bool)
    ensures
        ok == (len <= MAX_UPDATE_LEN),
{
    len <= MAX_UPDATE_LEN
}

} // verus!
