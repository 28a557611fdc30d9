//! The local authorization checker.
//!
//! A card code is granted exactly when its decimal rendering appears as a
//! whitespace-delimited token of the allow-list text loaded from persistent
//! storage. The check's sole side effect is one `OnAuth` message on the
//! event bus carrying the code, its display name (the decimal text on a
//! grant, empty on a denial) and the decision; the same decision is also
//! returned to the caller.

use crate::bus::EventBus;
use crate::common::SystemMessage;
use vstd::prelude::*;

verus! {

/// The characters that separate allow-list entries.
pub open spec fn is_space(c: char) -> bool {
    c == ' ' || c == '\n' || c == '\t' || c == '\r'
}

/// The character of one decimal digit value.
pub open spec fn digit_char(d: int) -> char {
    if d == 0 {
        '0'
    } else if d == 1 {
        '1'
    } else if d == 2 {
        '2'
    } else if d == 3 {
        '3'
    } else if d == 4 {
        '4'
    } else if d == 5 {
        '5'
    } else if d == 6 {
        '6'
    } else if d == 7 {
        '7'
    } else if d == 8 {
        '8'
    } else {
        '9'
    }
}

/// The decimal rendering of a number, most significant digit first, with
/// no leading zeros (except for the number 0 itself).
pub open spec fn dec_digits(n: nat) -> Seq<char>
    decreases n,
{
    if n < 10 {
        seq![digit_char(n as int)]
    } else {
        dec_digits(n / 10).push(digit_char((n % 10) as int))
    }
}

/// `[i, j)` spans one whole whitespace-delimited token of `s`: non-empty,
/// free of whitespace, and bounded by whitespace or the ends of `s`.
pub open spec fn token_at(s: Seq<char>, i: int, j: int) -> bool {
    &&& 0 <= i < j <= s.len()
    &&& (i == 0 || is_space(s[i - 1]))
    &&& (j == s.len() || is_space(s[j]))
    &&& forall|k: int| i <= k < j ==> !is_space(#[trigger] s[k])
}

/// `tok` appears verbatim as a whitespace-delimited token of `s`.
pub open spec fn contains_token(s: Seq<char>, tok: Seq<char>) -> bool {
    exists|i: int, j: int| #[trigger] token_at(s, i, j) && s.subrange(i, j) == tok
}

/// Whether the character separates allow-list entries.
pub fn is_space_char(c: char) -> (b: bool)
    ensures
        b == is_space(c),
{
    c == ' ' || c == '\n' || c == '\t' || c == '\r'
}

/// Appends the character of one decimal digit value.
fn push_digit(out: &mut String, d: u32)
    requires
        d < 10,
    ensures
        final(out)@ =~= old(out)@.push(digit_char(d as int)),
{
    proof {
        reveal_strlit("0");
        reveal_strlit("1");
        reveal_strlit("2");
        reveal_strlit("3");
        reveal_strlit("4");
        reveal_strlit("5");
        reveal_strlit("6");
        reveal_strlit("7");
        reveal_strlit("8");
        reveal_strlit("9");
    }
    match d {
        0 => out.append("0"),
        1 => out.append("1"),
        2 => out.append("2"),
        3 => out.append("3"),
        4 => out.append("4"),
        5 => out.append("5"),
        6 => out.append("6"),
        7 => out.append("7"),
        8 => out.append("8"),
        _ => out.append("9"),
    }
}

/// Appends the decimal rendering of `n`.
fn push_decimal(out: &mut String, n: u32)
    ensures
        final(out)@ =~= old(out)@ + dec_digits(n as nat),
    decreases n,
{
    if n >= 10 {
        push_decimal(out, n / 10);
        push_digit(out, n % 10);
        proof {
            assert(old(out)@ + dec_digits((n / 10) as nat).push(digit_char((n % 10) as int))
                =~= (old(out)@ + dec_digits((n / 10) as nat)).push(digit_char((n % 10) as int)));
        }
    } else {
        push_digit(out, n);
        proof {
            assert(old(out)@ + seq![digit_char(n as int)] =~= old(out)@.push(
                digit_char(n as int)));
        }
    }
}

/// The decimal rendering of a card code as text.
pub fn decimal_string(code: u32) -> (s: String)
    ensures
        s@ =~= dec_digits(code as nat),
{
    let mut s = String::new();
    push_decimal(&mut s, code);
    proof {
        assert(Seq::<char>::empty() + dec_digits(code as nat) =~= dec_digits(code as nat));
    }
    s
}

/// Whether `tok` appears verbatim as a whitespace-delimited token of
/// `allow`.
pub fn contains_code(allow: &str, tok: &str) -> (b: bool)
    ensures
        b == contains_token(allow@, tok@),
{
    let n = allow.unicode_len();
    let tok_len = tok.unicode_len();
    let mut i: usize = 0;
    while i < n
        invariant
            0 <= i <= n,
            n == allow@.len(),
            tok_len == tok@.len(),
            i == n || i == 0 || is_space(allow@[i as int - 1]) || is_space(allow@[i as int]),
            forall|i0: int, j0: int|
                #[trigger] token_at(allow@, i0, j0) && i0 < i ==> allow@.subrange(i0, j0)
                    != tok@,
        decreases n - i,
    {
        let c = allow.get_char(i);
        if is_space_char(c) {
            i = i + 1;
        } else {
            // `i` starts a token: scan to its end.
            let start = i;
            let mut j: usize = i + 1;
            while j < n && !is_space_char(allow.get_char(j))
                invariant
                    start < j <= n,
                    n == allow@.len(),
                    forall|k: int| start <= k < j ==> !is_space(#[trigger] allow@[k]),
                decreases n - j,
            {
                j = j + 1;
            }
            proof {
                assert(token_at(allow@, start as int, j as int));
            }
            // Compare the token span with `tok`.
            let mut same = j - start == tok_len;
            proof {
                if !same {
                    assert(allow@.subrange(start as int, j as int).len() == j - start);
                }
            }
            let mut k: usize = 0;
            while same && k < tok_len
                invariant
                    0 <= k <= tok_len,
                    tok_len == tok@.len(),
                    n == allow@.len(),
                    start < j <= n,
                    same ==> start + tok_len == j,
                    same ==> forall|k0: int|
                        0 <= k0 < k ==> allow@[start + k0] == #[trigger] tok@[k0],
                    !same ==> allow@.subrange(start as int, j as int) != tok@,
                decreases 2 * (tok_len - k) + (if same { 1int } else { 0int }),
            {
                if allow.get_char(start + k) != tok.get_char(k) {
                    same = false;
                    proof {
                        assert(allow@.subrange(start as int, j as int)[k as int]
                            == allow@[start + k]);
                    }
                } else {
                    k = k + 1;
                }
            }
            if same {
                proof {
                    assert(allow@.subrange(start as int, j as int) =~= tok@);
                }
                return true;
            }
            // The span `[start, j)` does not match; no other token overlaps
            // it, so the scan may resume at `j`.
            proof {
                assert forall|i0: int, j0: int|
                    #[trigger] token_at(allow@, i0, j0) && i0 < j implies allow@.subrange(
                    i0,
                    j0,
                ) != tok@ by {
                    if i0 < start {
                        // handled by the outer invariant
                    } else if i0 == start {
                        // the token ending is unique, so j0 == j
                        assert(j0 == j) by {
                            if j0 < j {
                                assert(!is_space(allow@[j0]));
                            }
                            if j0 > j {
                                assert(is_space(allow@[j as int]) || j == n);
                                assert(!is_space(allow@[j as int]));
                            }
                        }
                    } else {
                        // a token cannot start inside the non-space run
                        assert(!is_space(allow@[i0 - 1]));
                    }
                }
            }
            i = j;
        }
    }
    proof {
        assert(!contains_token(allow@, tok@)) by {
            if contains_token(allow@, tok@) {
                let (i0, j0) = choose|i0: int, j0: int|
                    #[trigger] token_at(allow@, i0, j0) && allow@.subrange(i0, j0) == tok@;
                assert(i0 < i);
            }
        }
    }
    false
}

/// The authorization checker over the persisted allow-list text.
pub struct AuthService {
    allow: String,
}

impl AuthService {
    /// The allow-list text the checker consults.
    pub closed spec fn allow_list(&self) -> Seq<char> {
        self.allow@
    }

    /// Creates a checker over the given allow-list text.
    pub fn new(allow: String) -> (auth: AuthService)
        ensures
            auth.allow_list() == allow@,
    {
        AuthService { allow }
    }

    /// Decides whether the card code is authorized by the allow-list:
    /// granted exactly when the code's decimal text appears as a
    /// whitespace-delimited token. Emits exactly one `OnAuth` message on
    /// the bus — carrying the code, the decimal text on a grant and the
    /// empty name on a denial, and the decision — and returns the same
    /// decision.
    pub fn check_local(&self, code: u32, bus: &mut EventBus) -> (granted: bool)
        requires
            old(bus).wf(),
            old(bus).pending().len() < old(bus).capacity(),
        ensures
            final(bus).wf(),
            final(bus).capacity() == old(bus).capacity(),
            granted == contains_token(self.allow_list(), dec_digits(code as nat)),
            final(bus).pending().len() == old(bus).pending().len() + 1,
            final(bus).pending().take(old(bus).pending().len() as int) =~= old(bus).pending(),
            ({
                let m = final(bus).pending().last();
                &&& m matches SystemMessage::OnAuth(c, name, g)
                &&& c == code
                &&& g == granted
                &&& granted ==> name@ == dec_digits(code as nat)
                &&& !granted ==> name@ == Seq::<char>::empty()
            }),
    {
        let text = decimal_string(code);
        let granted = contains_code(self.allow.as_str(), text.as_str());
        let name = if granted {
            text
        } else {
            String::new()
        };
        // The precondition leaves room on the bus, so the send is accepted.
        let _ = bus.send(SystemMessage::OnAuth(code, name, granted));
        granted
    }
}

/// Interprets the transport status of the remote authority: any success
/// status (2xx) authorizes, anything else is reported back as the error
/// with the offending status. The decision payload beyond the status is an
/// open protocol question and is deliberately not inferred here.
pub fn interpret_remote_status(status: u16) -> (r: Result<(), u16>)
    ensures
        r is Ok <==> 200 <= status <= 299,
        r matches Err(s) ==> s == status,
{
    if 200 <= status && status <= 299 {
        Ok(())
    } else {
        Err(status)
    }
}

} // verus!
