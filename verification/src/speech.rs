//! The speech service: sentence splitting and pacing for spoken output,
//! and the non-blocking frame adapter feeding the audio ring buffer.
//!
//! Text is split at periods; every segment is trimmed of surrounding
//! whitespace and re-suffixed with a period and a space, so the
//! synthesizer's own sentence-completion heuristic fires promptly. Empty
//! segments are not submitted. Because the synthesizer gives no completion
//! signal, the service waits a length-proportional delay before submitting
//! the next sentence; the delay for each sentence comes from
//! [`pacing_delay_ticks`].
//!
//! The synthesizer's sample callback runs in an interrupt-like context and
//! must never block: [`on_samples`] offers the frame to the ring buffer
//! and drops it on overflow.

use crate::audio::RingBuffer;
use crate::auth::is_space;
use vstd::prelude::*;

verus! {

/// Scheduler ticks of pacing delay per character of a submitted sentence.
pub const PACING_TICKS_PER_CHAR: u64 = 100;

/// `s` without its leading whitespace.
pub open spec fn trim_front(s: Seq<char>) -> Seq<char>
    decreases s.len(),
{
    if s.len() > 0 && is_space(s[0]) {
        trim_front(s.drop_first())
    } else {
        s
    }
}

/// `s` without its trailing whitespace.
pub open spec fn trim_back(s: Seq<char>) -> Seq<char>
    decreases s.len(),
{
    if s.len() > 0 && is_space(s.last()) {
        trim_back(s.drop_last())
    } else {
        s
    }
}

/// `s` without surrounding whitespace.
pub open spec fn trim(s: Seq<char>) -> Seq<char> {
    trim_back(trim_front(s))
}

/// The sentence submitted for one non-empty text segment: the trimmed
/// segment, re-suffixed with a period and a space.
pub open spec fn sentence_of(seg: Seq<char>) -> Seq<char> {
    trim(seg) + seq!['.', ' ']
}

/// Index of the first period in `s`, or `s.len()` when there is none.
pub open spec fn first_dot(s: Seq<char>) -> int
    decreases s.len(),
{
    if s.len() == 0 {
        0
    } else if s[0] == '.' {
        0
    } else {
        1 + first_dot(s.drop_first())
    }
}

/// The sentences submitted for a text: one per period-delimited segment
/// that is non-empty after trimming, in order, each re-suffixed with a
/// period and a space.
pub open spec fn sentences_of(s: Seq<char>) -> Seq<Seq<char>>
    decreases s.len(),
    via sentences_of_decreases
{
    let d = first_dot(s);
    let seg = s.subrange(0, d);
    let head = if trim(seg).len() == 0 {
        Seq::<Seq<char>>::empty()
    } else {
        seq![sentence_of(seg)]
    };
    if d == s.len() {
        head
    } else {
        head + sentences_of(s.subrange(d + 1, s.len() as int))
    }
}

#[via_fn]
proof fn sentences_of_decreases(s: Seq<char>) {
    lemma_first_dot_bounds(s);
}

proof fn lemma_first_dot_bounds(s: Seq<char>)
    ensures
        0 <= first_dot(s) <= s.len(),
        first_dot(s) < s.len() ==> s[first_dot(s)] == '.',
        forall|m: int| 0 <= m < first_dot(s) ==> #[trigger] s[m] != '.',
    decreases s.len(),
{
    if s.len() > 0 && s[0] != '.' {
        lemma_first_dot_bounds(s.drop_first());
        assert forall|m: int| 0 <= m < first_dot(s) implies #[trigger] s[m] != '.' by {
            if m > 0 {
                assert(s.drop_first()[m - 1] != '.');
            }
        }
    }
}

/// A scan that saw no period before `k`, and a period or the end at `k`,
/// found the first period.
proof fn lemma_first_dot_at(s: Seq<char>, k: int)
    requires
        0 <= k <= s.len(),
        forall|m: int| 0 <= m < k ==> #[trigger] s[m] != '.',
        k == s.len() || s[k] == '.',
    ensures
        first_dot(s) == k,
    decreases s.len(),
{
    if s.len() > 0 && s[0] != '.' {
        lemma_first_dot_at(s.drop_first(), k - 1);
    }
}

/// A scan that saw only whitespace before `a`, and a non-space or the end
/// at `a`, found where the leading whitespace ends.
proof fn lemma_trim_front_at(s: Seq<char>, a: int)
    requires
        0 <= a <= s.len(),
        forall|m: int| 0 <= m < a ==> is_space(#[trigger] s[m]),
        a == s.len() || !is_space(s[a]),
    ensures
        trim_front(s) =~= s.subrange(a, s.len() as int),
    decreases s.len(),
{
    if s.len() > 0 && is_space(s[0]) {
        lemma_trim_front_at(s.drop_first(), a - 1);
        assert(s.drop_first().subrange(a - 1, s.drop_first().len() as int) =~= s.subrange(
            a,
            s.len() as int,
        ));
    } else if a > 0 {
        assert(is_space(s[0]));
    } else {
        assert(s.subrange(0, s.len() as int) =~= s);
    }
}

/// A scan that saw only whitespace from `b` on, and a non-space or the
/// start at `b - 1`, found where the trailing whitespace begins.
proof fn lemma_trim_back_at(s: Seq<char>, b: int)
    requires
        0 <= b <= s.len(),
        forall|m: int| b <= m < s.len() ==> is_space(#[trigger] s[m]),
        b == 0 || !is_space(s[b - 1]),
    ensures
        trim_back(s) =~= s.subrange(0, b),
    decreases s.len(),
{
    if s.len() > 0 && is_space(s.last()) {
        if b == s.len() {
            assert(!is_space(s[b - 1]));
        }
        lemma_trim_back_at(s.drop_last(), b);
        assert(s.drop_last().subrange(0, b) =~= s.subrange(0, b));
    } else if b < s.len() {
        assert(is_space(s[s.len() - 1]));
    } else {
        assert(s.subrange(0, b) =~= s);
    }
}

/// Splits a text at periods into the sentences to submit, in order: each
/// period-delimited segment that is non-empty after trimming surrounding
/// whitespace, re-suffixed with a period and a space.
pub fn split_sentences(text: &str) -> (out: Vec<String>)
    ensures
        out.deep_view() == sentences_of(text@),
{
    let n = text.unicode_len();
    let mut out: Vec<String> = Vec::new();
    let mut pos: usize = 0;
    proof {
        assert(out.deep_view() =~~= Seq::<Seq<char>>::empty());
        assert(text@.subrange(0, n as int) =~= text@);
    }
    while pos < n
        invariant
            0 <= pos <= n,
            n == text@.len(),
            sentences_of(text@) == out.deep_view() + sentences_of(
                text@.subrange(pos as int, n as int),
            ),
        decreases n - pos,
    {
        let ghost pos0 = pos as int;
        let ghost rest = text@.subrange(pos as int, n as int);
        // Find the segment end: the next period, or the end of the text.
        let mut d: usize = pos;
        while d < n && text.get_char(d) != '.'
            invariant
                pos <= d <= n,
                n == text@.len(),
                forall|m: int| pos <= m < d ==> #[trigger] text@[m] != '.',
            decreases n - d,
        {
            d = d + 1;
        }
        proof {
            lemma_first_dot_at(rest, d - pos);
        }
        // Trim surrounding whitespace off the segment `[pos, d)`.
        let mut a: usize = pos;
        while a < d && is_space_char_at(text, a)
            invariant
                pos <= a <= d <= n,
                n == text@.len(),
                forall|m: int| pos <= m < a ==> is_space(#[trigger] text@[m]),
            decreases d - a,
        {
            a = a + 1;
        }
        let mut b: usize = d;
        while b > a && is_space_char_at(text, b - 1)
            invariant
                a <= b <= d <= n,
                n == text@.len(),
                forall|m: int| b <= m < d ==> is_space(#[trigger] text@[m]),
            decreases b - a,
        {
            b = b - 1;
        }
        let ghost seg = rest.subrange(0, d - pos);
        proof {
            assert(seg =~= text@.subrange(pos as int, d as int));
            lemma_trim_front_at(seg, a - pos);
            assert(seg.subrange(a - pos, seg.len() as int) =~= text@.subrange(
                a as int,
                d as int,
            ));
            let fronted = text@.subrange(a as int, d as int);
            lemma_trim_back_at(fronted, b - a);
            assert(fronted.subrange(0, b - a) =~= text@.subrange(a as int, b as int));
            assert(trim(seg) =~= text@.subrange(a as int, b as int));
        }
        if b > a {
            let piece = text.substring_char(a, b);
            let mut sentence = piece.to_owned();
            sentence.append(". ");
            proof {
                reveal_strlit(". ");
                assert(". "@ =~= seq!['.', ' ']);
                assert(sentence@ =~= sentence_of(seg));
            }
            let ghost out_before = out.deep_view();
            out.push(sentence);
            proof {
                assert(out.deep_view() =~~= out_before.push(sentence_of(seg)));
            }
        }
        let ghost out_now = out.deep_view();
        if d < n {
            pos = d + 1;
        } else {
            pos = n;
        }
        proof {
            let tail = text@.subrange(pos as int, n as int);
            if d < n {
                assert(rest.subrange(d - pos0 + 1, rest.len() as int) =~= tail);
            } else {
                assert(tail.len() == 0);
                assert(first_dot(tail) == 0);
                assert(trim(tail) =~= tail);
                assert(sentences_of(tail) =~= Seq::<Seq<char>>::empty());
            }
            if b > a {
                assert(sentences_of(rest) =~= seq![sentence_of(seg)] + sentences_of(tail));
            } else {
                assert(trim(seg).len() == 0);
                assert(sentences_of(rest) =~= sentences_of(tail));
            }
            assert(out_now + sentences_of(tail) =~~= (out.deep_view() + sentences_of(tail)));
            assert(sentences_of(text@) == out.deep_view() + sentences_of(tail));
        }
    }
    proof {
        let tail = text@.subrange(pos as int, n as int);
        assert(tail.len() == 0);
        assert(sentences_of(tail) =~= Seq::<Seq<char>>::empty());
        assert(out.deep_view() + sentences_of(tail) =~~= out.deep_view());
    }
    out
}

/// Whether the character at a position of the text is whitespace.
fn is_space_char_at(text: &str, i: usize) -> (b: bool)
    requires
        i < text@.len(),
    ensures
        b == is_space(text@[i as int]),
{
    crate::auth::is_space_char(text.get_char(i))
}

/// The pacing delay, in scheduler ticks, before the next sentence may be
/// submitted: proportional to the sentence's character count, saturating
/// at the type bound.
pub fn pacing_delay_ticks(chars: usize) -> (t: u64)
    ensures
        chars * PACING_TICKS_PER_CHAR <= u64::MAX ==> t == chars * PACING_TICKS_PER_CHAR,
        chars * PACING_TICKS_PER_CHAR > u64::MAX ==> t == u64::MAX,
{
    if chars as u64 > u64::MAX / PACING_TICKS_PER_CHAR {
        u64::MAX
    } else {
        chars as u64 * PACING_TICKS_PER_CHAR
    }
}

/// The synthesizer's sample callback: offers one frame to the ring buffer
/// without ever blocking the synthesis context. An accepted frame is
/// queued behind all earlier frames; a frame that would overflow the
/// buffer is dropped whole, leaving the queue untouched.
pub fn on_samples(rb: &mut RingBuffer, frame: Vec<u8>) -> (accepted: bool)
    requires
        old(rb).wf(),
    ensures
        final(rb).wf(),
        final(rb).capacity() == old(rb).capacity(),
        final(rb).outstanding() == old(rb).outstanding(),
        accepted == (crate::audio::total_bytes(old(rb).frames()) + old(rb).outstanding()
            + frame@.len() <= old(rb).capacity()),
        accepted ==> final(rb).frames() =~= old(rb).frames().push(frame@),
        !accepted ==> final(rb).frames() =~= old(rb).frames(),
{
    match rb.write(frame) {
        Ok(()) => true,
        Err(_) => false,
    }
}

} // verus!
