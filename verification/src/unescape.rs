//! The decoder: resolves named, decimal and hexadecimal character
//! references in a stream of bytes.
//!
//! A `&` that starts no reference is kept as it is, and so is everything
//! after it: the bytes that were looked at while the reference was tried are
//! read again as ordinary input.
use crate::codepoint::{resolve, resolve_codepoint};
use crate::unescape_named::{
    decoded, decoded_bytes, lemma_walk_dead, lemma_walk_push, named_ref, node_value, walk,
    Matcher, LONGEST_NAMED_REFERENCE,
};
use vstd::prelude::*;

verus! {

/// The most digits that a numeric reference may have.
pub const MAX_DIGITS: usize = 32;

/// The number of bytes after a `&` that decide what the `&` starts: a `#`,
/// an `x`, `MAX_DIGITS` digits and one byte more.
pub const LOOKAHEAD: usize = 35;

/// Whether `b` is an ASCII letter.
pub open spec fn is_letter(b: u8) -> bool {
    (0x41 <= b <= 0x5A) || (0x61 <= b <= 0x7A)
}

/// Whether `b` is an ASCII decimal digit.
pub open spec fn is_decimal_digit(b: u8) -> bool {
    0x30 <= b <= 0x39
}

/// Whether `b` is an ASCII letter or decimal digit.
pub open spec fn is_alnum(b: u8) -> bool {
    is_letter(b) || is_decimal_digit(b)
}

/// Whether `b` is an ASCII hexadecimal digit, in either case.
pub open spec fn is_hex_digit(b: u8) -> bool {
    is_decimal_digit(b) || (0x41 <= b <= 0x46) || (0x61 <= b <= 0x66)
}

/// Whether `b` is a digit of the base in use.
pub open spec fn is_digit(b: u8, hex: bool) -> bool {
    if hex {
        is_hex_digit(b)
    } else {
        is_decimal_digit(b)
    }
}

/// The value of the digit `b`.
pub open spec fn digit_value(b: u8) -> int {
    if is_decimal_digit(b) {
        b - 0x30
    } else if 0x41 <= b <= 0x46 {
        b - 0x41 + 10
    } else {
        b - 0x61 + 10
    }
}

/// The base in use: 16 or 10.
pub open spec fn base(hex: bool) -> int {
    if hex {
        16
    } else {
        10
    }
}

/// The number of digits that `s` starts with.
pub open spec fn digit_run(s: Seq<u8>, hex: bool) -> nat
    decreases s.len(),
{
    if s.len() > 0 && is_digit(s[0], hex) {
        1 + digit_run(s.skip(1), hex)
    } else {
        0
    }
}

/// The number that the digits `digits` write, however large.
pub open spec fn digits_value(digits: Seq<u8>, hex: bool) -> int
    decreases digits.len(),
{
    if digits.len() == 0 {
        0
    } else {
        digits_value(digits.drop_last(), hex) * base(hex) + digit_value(digits.last())
    }
}

/// The numeric reference that `s` starts with, where `s` is what follows
/// `&#`: how many bytes of `s` it takes and the bytes it stands for. There
/// is one where an optional `x` or `X`, then digits (at least one where
/// there is no `x`, at most `MAX_DIGITS`), then `;` stand at the start.
pub open spec fn numeric_reference(s: Seq<u8>) -> Option<(int, Seq<u8>)> {
    let hex = s.len() > 0 && (s[0] == 0x78 || s[0] == 0x58);
    let start: int = if hex {
        1
    } else {
        0
    };
    let end: int = start + digit_run(s.skip(start), hex);
    if (hex || end > start) && end - start <= MAX_DIGITS && end < s.len() && s[end] == 0x3B {
        Some((end + 1, resolve_codepoint(digits_value(s.subrange(start, end), hex))))
    } else {
        None
    }
}

/// Whether the first `n` bytes of `s` have the shape of a reference name: a
/// letter, then letters and digits, then possibly a `;`, and no more than
/// `LONGEST_NAMED_REFERENCE` bytes in all.
pub open spec fn is_candidate(s: Seq<u8>, n: int) -> bool {
    &&& 1 <= n <= s.len()
    &&& n <= LONGEST_NAMED_REFERENCE
    &&& is_letter(s[0])
    &&& forall|j: int| 0 <= j < n - 1 ==> is_alnum(#[trigger] s[j])
    &&& (is_alnum(s[n - 1]) || s[n - 1] == 0x3B)
}

/// Whether the first `n` bytes of `s` are the name of a reference.
pub open spec fn is_named_prefix(s: Seq<u8>, n: int) -> bool {
    is_candidate(s, n) && named_ref(s.take(n)) is Some
}

/// The largest `m`, at most `n`, such that the first `m` bytes of `s` are
/// the name of a reference.
pub open spec fn longest_named_prefix(s: Seq<u8>, n: nat) -> Option<int>
    decreases n,
{
    if n == 0 {
        None
    } else if is_named_prefix(s, n as int) {
        Some(n as int)
    } else {
        longest_named_prefix(s, (n - 1) as nat)
    }
}

/// The named reference that `s` starts with, where `s` is what follows `&`:
/// how many bytes of `s` it takes and the bytes it stands for. Of several
/// names that `s` starts with, the longest counts.
pub open spec fn named_reference(s: Seq<u8>) -> Option<(int, Seq<u8>)> {
    match longest_named_prefix(s, s.len()) {
        None => None,
        Some(n) => Some((n, named_ref(s.take(n))->0)),
    }
}

/// The reference that `s` starts with, where `s` is what follows `&`: how
/// many bytes of `s` it takes and the bytes it stands for.
pub open spec fn reference(s: Seq<u8>) -> Option<(int, Seq<u8>)> {
    if s.len() == 0 {
        None
    } else if s[0] == 0x23 {
        match numeric_reference(s.skip(1)) {
            None => None,
            Some((n, bytes)) => Some((n + 1, bytes)),
        }
    } else if is_letter(s[0]) {
        named_reference(s)
    } else {
        None
    }
}

/// What the decoder makes of the bytes `s`. A byte other than `&` stands for
/// itself. A `&` with a reference after it stands for the bytes of the
/// reference, and decoding goes on after the reference. Any other `&`
/// stands for itself, and decoding goes on right after it.
pub open spec fn decode(s: Seq<u8>) -> Seq<u8>
    decreases s.len(),
    via decode_decreases
{
    if s.len() == 0 {
        seq![]
    } else if s[0] != 0x26 {
        seq![s[0]] + decode(s.skip(1))
    } else {
        match reference(s.skip(1)) {
            Some((n, bytes)) => bytes + decode(s.skip(1 + n)),
            None => seq![0x26u8] + decode(s.skip(1)),
        }
    }
}

#[via_fn]
proof fn decode_decreases(s: Seq<u8>) {
    if s.len() > 0 && s[0] == 0x26 {
        lemma_reference_bounds(s.skip(1));
    }
}

/// The longest name among the first `n` bytes is a name and has from 1 to
/// `n` bytes.
pub proof fn lemma_longest_is_named(s: Seq<u8>, n: nat)
    ensures
        longest_named_prefix(s, n) is Some ==> 1 <= longest_named_prefix(s, n)->0 <= n
            && is_named_prefix(s, longest_named_prefix(s, n)->0),
    decreases n,
{
    if n > 0 && !is_named_prefix(s, n as int) {
        lemma_longest_is_named(s, (n - 1) as nat);
    }
}

/// Where no name has more than `lo` and at most `hi` bytes, the longest
/// name among the first `hi` bytes is the longest among the first `lo`.
pub proof fn lemma_longest_above(s: Seq<u8>, lo: nat, hi: nat)
    requires
        lo <= hi,
        forall|m: int| lo < m <= hi ==> !is_named_prefix(s, m),
    ensures
        longest_named_prefix(s, hi) == longest_named_prefix(s, lo),
    decreases hi - lo,
{
    if lo < hi {
        lemma_longest_above(s, lo, (hi - 1) as nat);
    }
}

/// A reference takes at least one byte and no more than there are, and
/// stands for at least one byte.
pub proof fn lemma_reference_bounds(s: Seq<u8>)
    ensures
        reference(s) matches Some(r) ==> 0 < r.0 <= s.len() && r.1.len() > 0,
{
    if s.len() > 0 && reference(s) is Some {
        if s[0] == 0x23 {
            let t = s.skip(1);
            let hex = t.len() > 0 && (t[0] == 0x78 || t[0] == 0x58);
            let start: int = if hex {
                1
            } else {
                0
            };
            let end: int = start + digit_run(t.skip(start), hex);
            crate::codepoint::lemma_resolved_is_scalar(
                digits_value(t.subrange(start, end), hex),
            );
        } else {
            lemma_longest_is_named(s, s.len());
        }
    }
}

/// Bytes of which none is a `&` pass through the decoder unchanged.
pub proof fn lemma_decode_plain(s: Seq<u8>)
    requires
        forall|i: int| 0 <= i < s.len() ==> #[trigger] s[i] != 0x26,
    ensures
        decode(s) == s,
    decreases s.len(),
{
    if s.len() > 0 {
        let t = s.skip(1);
        assert forall|i: int| 0 <= i < t.len() implies #[trigger] t[i] != 0x26 by {
            assert(t[i] == s[i + 1]);
        }
        lemma_decode_plain(t);
        assert(s[0] != 0x26);
        assert(decode(s) =~= s);
    } else {
        assert(decode(s) =~= s);
    }
}

/// A `&` that neither `#` nor a letter follows is kept, and decoding goes on
/// right after it. So it is before a space, before another `&` and at the
/// end of the input.
pub proof fn lemma_decode_lone_ampersand(s: Seq<u8>)
    requires
        s.len() >= 1,
        s[0] == 0x26,
        s.len() >= 2 ==> s[1] != 0x23 && !is_letter(s[1]),
    ensures
        decode(s) == seq![0x26u8] + decode(s.skip(1)),
{
    let t = s.skip(1);
    if t.len() > 0 {
        assert(t[0] == s[1]);
    }
    assert(reference(t) is None);
}

/// The digits that the first `m` bytes of `s` start with are those that `s`
/// starts with, as far as they lie among the first `m` bytes.
pub proof fn lemma_digit_run_take(s: Seq<u8>, m: int, hex: bool)
    requires
        0 <= m <= s.len(),
    ensures
        digit_run(s.take(m), hex) == (if digit_run(s, hex) <= m {
            digit_run(s, hex)
        } else {
            m as nat
        }),
    decreases m,
{
    if m > 0 && is_digit(s[0], hex) {
        assert(s.take(m)[0] == s[0]);
        assert(s.take(m).skip(1) =~= s.skip(1).take(m - 1));
        lemma_digit_run_take(s.skip(1), m - 1, hex);
    } else if m > 0 {
        assert(s.take(m)[0] == s[0]);
    }
}

/// Whether the first `n` bytes are the name of a reference depends on those
/// bytes alone.
pub proof fn lemma_named_prefix_take(s: Seq<u8>, k: int, n: int)
    requires
        0 <= n <= k <= s.len(),
    ensures
        is_named_prefix(s.take(k), n) == is_named_prefix(s, n),
{
    let t = s.take(k);
    if n >= 1 {
        assert(t.take(n) =~= s.take(n));
        assert(t[0] == s[0]);
        assert(t[n - 1] == s[n - 1]);
        if is_candidate(s, n) {
            assert forall|j: int| 0 <= j < n - 1 implies is_alnum(#[trigger] t[j]) by {
                assert(t[j] == s[j]);
            }
        }
        if is_candidate(t, n) {
            assert forall|j: int| 0 <= j < n - 1 implies is_alnum(#[trigger] s[j]) by {
                assert(t[j] == s[j]);
            }
        }
    }
}

/// The longest name among the first `n` bytes depends on those bytes alone.
pub proof fn lemma_longest_take(s: Seq<u8>, k: int, n: nat)
    requires
        n <= k <= s.len(),
    ensures
        longest_named_prefix(s.take(k), n) == longest_named_prefix(s, n),
    decreases n,
{
    if n > 0 {
        lemma_named_prefix_take(s, k, n as int);
        lemma_longest_take(s, k, (n - 1) as nat);
    }
}

/// What a `&` starts is decided by the `LOOKAHEAD` bytes after it: whatever
/// stands further on has no part in it.
pub proof fn lemma_reference_lookahead(s: Seq<u8>, k: int)
    requires
        LOOKAHEAD <= k <= s.len(),
    ensures
        reference(s.take(k)) == reference(s),
{
    let p = s.take(k);
    assert(p[0] == s[0]);
    if s[0] == 0x23 {
        let t = s.skip(1);
        let q = p.skip(1);
        assert(q =~= t.take(k - 1));
        assert(q[0] == t[0]);
        let hex = t[0] == 0x78 || t[0] == 0x58;
        let start: int = if hex {
            1
        } else {
            0
        };
        let u = t.skip(start);
        assert(q.skip(start) =~= u.take(k - 1 - start));
        lemma_digit_run_take(u, k - 1 - start, hex);
        let end = start + digit_run(u, hex);
        if digit_run(u, hex) <= MAX_DIGITS {
            assert(q[end] == t[end]);
            assert(q.subrange(start, end) =~= t.subrange(start, end));
        }
    } else if is_letter(s[0]) {
        let cap = LONGEST_NAMED_REFERENCE as nat;
        lemma_longest_above(s, cap, s.len());
        lemma_longest_above(p, cap, p.len());
        lemma_longest_take(s, k, cap);
        lemma_longest_is_named(s, cap);
        if longest_named_prefix(s, cap) is Some {
            let n = longest_named_prefix(s, cap)->0;
            assert(p.take(n) =~= s.take(n));
        }
    }
}

/// A run of `k` digits that ends at a byte that is no digit, or at the end,
/// is the whole run of digits.
pub proof fn lemma_digit_run(s: Seq<u8>, k: int, hex: bool)
    requires
        0 <= k <= s.len(),
        forall|j: int| 0 <= j < k ==> is_digit(#[trigger] s[j], hex),
        k == s.len() || !is_digit(s[k], hex),
    ensures
        digit_run(s, hex) == k,
    decreases k,
{
    if k > 0 {
        let t = s.skip(1);
        assert forall|j: int| 0 <= j < k - 1 implies is_digit(#[trigger] t[j], hex) by {
            assert(t[j] == s[j + 1]);
        }
        lemma_digit_run(t, k - 1, hex);
    }
}

/// One digit more multiplies the number by the base and adds the digit.
pub proof fn lemma_digits_value_push(digits: Seq<u8>, b: u8, hex: bool)
    ensures
        digits_value(digits.push(b), hex) == digits_value(digits, hex) * base(hex) + digit_value(
            b,
        ),
{
    assert(digits.push(b).drop_last() =~= digits);
}

/// A run of digits is at least as long as any number of digits that `s`
/// starts with.
pub proof fn lemma_digit_run_at_least(s: Seq<u8>, k: int, hex: bool)
    requires
        0 <= k <= s.len(),
        forall|j: int| 0 <= j < k ==> is_digit(#[trigger] s[j], hex),
    ensures
        digit_run(s, hex) >= k,
    decreases k,
{
    if k > 0 {
        let t = s.skip(1);
        assert forall|j: int| 0 <= j < k - 1 implies is_digit(#[trigger] t[j], hex) by {
            assert(t[j] == s[j + 1]);
        }
        lemma_digit_run_at_least(t, k - 1, hex);
    }
}

/// The value of `b` as a digit of the base in use, if it is one.
pub fn digit_of(b: u8, hex: bool) -> (d: Option<u32>)
    ensures
        d is Some <==> is_digit(b, hex),
        d is Some ==> d->0 == digit_value(b),
{
    if 0x30 <= b && b <= 0x39 {
        Some((b - 0x30) as u32)
    } else if hex && 0x41 <= b && b <= 0x46 {
        Some((b - 0x41 + 10) as u32)
    } else if hex && 0x61 <= b && b <= 0x66 {
        Some((b - 0x61 + 10) as u32)
    } else {
        None
    }
}

/// Whether `b` is an ASCII letter.
pub fn letter(b: u8) -> (r: bool)
    ensures
        r == is_letter(b),
{
    (0x41 <= b && b <= 0x5A) || (0x61 <= b && b <= 0x7A)
}

/// Whether `b` is an ASCII letter or decimal digit.
pub fn alnum(b: u8) -> (r: bool)
    ensures
        r == is_alnum(b),
{
    letter(b) || (0x30 <= b && b <= 0x39)
}

/// A decoder over a byte source. Each call of `next` hands out one byte of
/// the decoded text.
pub struct Unescape {
    inner: Vec<u8>,
    pos: usize,
    index: usize,
    buffer: Vec<u8>,
}

impl Unescape {
    #[verifier::type_invariant]
    closed spec fn inv(self) -> bool {
        &&& self.pos <= self.inner@.len()
        &&& self.index <= self.buffer@.len()
    }

    /// The source bytes that the decoder has not taken yet.
    pub closed spec fn source(self) -> Seq<u8> {
        self.inner@.skip(self.pos as int)
    }

    /// The bytes of the last reference resolved that are still to come.
    pub closed spec fn pending(self) -> Seq<u8> {
        self.buffer@.skip(self.index as int)
    }

    /// All bytes that the decoder will still hand out, in order.
    pub open spec fn remaining(self) -> Seq<u8> {
        self.pending() + decode(self.source())
    }

    /// What holds when the decoder, having taken a `&`, has dealt with what
    /// follows it and hands out `r`. Where a reference follows, `r` is the
    /// first byte it stands for, the others are pending and the reference is
    /// taken from the source. Where none follows, `r` is the `&` and nothing
    /// is taken.
    pub open spec fn resolved(before: Unescape, after: Unescape, r: u8) -> bool {
        match reference(before.source()) {
            None => r == 0x26 && after.source() == before.source() && after.pending()
                == Seq::<u8>::empty(),
            Some((n, bytes)) => r == bytes[0] && after.pending() == bytes.skip(1)
                && after.source() == before.source().skip(n),
        }
    }

    /// A decoder that will hand out the decoded form of `i`.
    pub fn new(i: Vec<u8>) -> (u: Unescape)
        ensures
            u.source() == i@,
            u.pending() == Seq::<u8>::empty(),
            u.remaining() == decode(i@),
    {
        let u = Unescape { inner: i, pos: 0, index: 0, buffer: Vec::new() };
        assert(u.source() =~= i@);
        assert(u.pending() =~= Seq::<u8>::empty());
        assert(u.remaining() =~= decode(i@));
        u
    }

    /// Takes the next pending byte.
    fn unext(&mut self) -> (r: u8)
        requires
            old(self).pending().len() > 0,
        ensures
            r == old(self).pending()[0],
            final(self).pending() == old(self).pending().skip(1),
            final(self).source() == old(self).source(),
    {
        proof {
            use_type_invariant(&*self);
        }
        let len = self.buffer.len();
        assert(self.index < len) by {
            assert(self.pending().len() == len - self.index);
        }
        let r = self.buffer[self.index];
        self.index += 1;
        assert(final(self).pending() =~= old(self).pending().skip(1));
        r
    }

    /// Forgets the pending bytes.
    fn drop_buffer(&mut self)
        ensures
            final(self).pending() == Seq::<u8>::empty(),
            final(self).source() == old(self).source(),
    {
        proof {
            use_type_invariant(&*self);
        }
        self.index = 0;
        self.buffer = Vec::new();
        assert(final(self).pending() =~= Seq::<u8>::empty());
    }

    /// The source byte `ahead` places further on, without taking it.
    fn peek(&self, ahead: usize) -> (b: Option<u8>)
        ensures
            ahead < self.source().len() ==> b == Some(self.source()[ahead as int]),
            ahead >= self.source().len() ==> b is None,
    {
        proof {
            use_type_invariant(self);
        }
        if ahead < self.inner.len() - self.pos {
            Some(self.inner[self.pos + ahead])
        } else {
            None
        }
    }

    /// Makes `bytes` the pending bytes, takes `taken` bytes from the source
    /// and hands out the first of `bytes`.
    fn replay(&mut self, bytes: Vec<u8>, taken: usize) -> (r: u8)
        requires
            bytes@.len() > 0,
            taken <= old(self).source().len(),
        ensures
            r == bytes@[0],
            final(self).pending() == bytes@.skip(1),
            final(self).source() == old(self).source().skip(taken as int),
    {
        proof {
            use_type_invariant(&*self);
        }
        let len = self.inner.len();
        assert(self.pos + taken <= len) by {
            assert(self.source().len() == len - self.pos);
        }
        self.index = 0;
        self.buffer = bytes;
        self.pos += taken;
        assert(self.source() =~= old(self).source().skip(taken as int));
        assert(self.pending() =~= bytes@);
        self.unext()
    }

    /// Resolves the value of a numeric reference that takes `taken` bytes
    /// of the source, and hands out the first byte it stands for.
    fn from_codepoint(&mut self, codepoint: u32, taken: usize) -> (r: u8)
        requires
            taken <= old(self).source().len(),
        ensures
            r == resolve_codepoint(codepoint as int)[0],
            final(self).pending() == resolve_codepoint(codepoint as int).skip(1),
            final(self).source() == old(self).source().skip(taken as int),
    {
        let bytes = resolve(codepoint);
        self.replay(bytes, taken)
    }

    /// Reads the digits that stand `start` places further on in the source,
    /// up to the `;` after them. Gives the place of the `;` and the number
    /// read, which is exact up to the largest scalar value and merely larger
    /// than that value beyond it.
    fn accumulate(&self, start: usize, hex: bool) -> (r: Option<(usize, u32)>)
        requires
            start <= self.source().len(),
        ensures
            ({
                let s = self.source();
                let end = start + digit_run(s.skip(start as int), hex);
                &&& r is Some <==> end - start <= MAX_DIGITS && end < s.len() && s[end] == 0x3B
                &&& r matches Some(found) ==> found.0 == end && resolve_codepoint(found.1 as int)
                    == resolve_codepoint(digits_value(s.subrange(start as int, end), hex))
            }),
    {
        proof {
            use_type_invariant(self);
        }
        let len: usize = self.inner.len() - self.pos;
        let ghost s = self.source();
        let ghost t = s.skip(start as int);
        let mut i: usize = start;
        let mut value: u32 = 0;
        loop
            invariant
                self.pos + len == self.inner@.len(),
                self.inner@.len() <= usize::MAX,
                s == self.source(),
                t == s.skip(start as int),
                s.len() == len,
                start <= i <= len,
                i - start <= MAX_DIGITS,
                forall|j: int| 0 <= j < i - start ==> is_digit(#[trigger] t[j], hex),
                value <= 0x10FFFF * 16 + 15,
                digits_value(s.subrange(start as int, i as int), hex) >= 0,
                digits_value(s.subrange(start as int, i as int), hex) <= 0x10FFFF ==> value
                    == digits_value(s.subrange(start as int, i as int), hex),
                digits_value(s.subrange(start as int, i as int), hex) > 0x10FFFF ==> value
                    > 0x10FFFF,
            decreases len - i,
        {
            if i >= len {
                proof {
                    lemma_digit_run(t, i - start, hex);
                }
                return None;
            }
            let b = self.inner[self.pos + i];
            assert(s[i as int] == b);
            assert(t[i - start] == b);
            match digit_of(b, hex) {
                Some(d) => {
                    if i - start == MAX_DIGITS {
                        proof {
                            lemma_digit_run_at_least(t, i - start + 1, hex);
                        }
                        return None;
                    }
                    proof {
                        let digits = s.subrange(start as int, i as int);
                        lemma_digits_value_push(digits, b, hex);
                        assert(s.subrange(start as int, i + 1) =~= digits.push(b));
                        let v = digits_value(digits, hex);
                        if hex {
                            assert(v * base(hex) == v * 16);
                        } else {
                            assert(v * base(hex) == v * 10);
                        }
                    }
                    if value <= 0x10FFFF {
                        value = if hex {
                            value * 16 + d
                        } else {
                            value * 10 + d
                        };
                    }
                    i += 1;
                },
                None => {
                    proof {
                        lemma_digit_run(t, i - start, hex);
                    }
                    if b == 0x3B {
                        return Some((i, value));
                    } else {
                        return None;
                    }
                },
            }
        }
    }

    /// Deals with what follows `&#`, where a decimal digit stands there.
    fn unescape_dec(&mut self) -> (r: u8)
        requires
            old(self).pending().len() == 0,
            old(self).source().len() > 1,
            old(self).source()[0] == 0x23,
            is_decimal_digit(old(self).source()[1]),
        ensures
            Self::resolved(*old(self), *final(self), r),
    {
        let ghost s = self.source();
        let ghost t = s.skip(1);
        proof {
            assert(t.skip(0) =~= t);
            assert(t[0] == s[1]);
            lemma_digit_run_at_least(t, 1, false);
            let end = digit_run(t, false) as int;
            if end <= t.len() {
                assert(t.subrange(0, end) =~= s.subrange(1, 1 + end));
            }
            assert(self.pending() =~= Seq::<u8>::empty());
        }
        match self.accumulate(1, false) {
            Some((end, value)) => self.from_codepoint(value, end + 1),
            None => 0x26,
        }
    }

    /// Deals with what follows `&#x` or `&#X`.
    fn unescape_hex(&mut self) -> (r: u8)
        requires
            old(self).pending().len() == 0,
            old(self).source().len() > 1,
            old(self).source()[0] == 0x23,
            old(self).source()[1] == 0x78 || old(self).source()[1] == 0x58,
        ensures
            Self::resolved(*old(self), *final(self), r),
    {
        let ghost s = self.source();
        let ghost t = s.skip(1);
        proof {
            assert(t.skip(1) =~= s.skip(2));
            assert(t[0] == s[1]);
            let end = 1 + digit_run(t.skip(1), true) as int;
            if end <= t.len() {
                assert(t.subrange(1, end) =~= s.subrange(2, 1 + end));
            }
            assert(self.pending() =~= Seq::<u8>::empty());
        }
        match self.accumulate(2, true) {
            Some((end, value)) => self.from_codepoint(value, end + 1),
            None => 0x26,
        }
    }

    /// Deals with what follows `&`, where a `#` stands there.
    fn unescape_numerical(&mut self) -> (r: u8)
        requires
            old(self).pending().len() == 0,
            old(self).source().len() > 0,
            old(self).source()[0] == 0x23,
        ensures
            Self::resolved(*old(self), *final(self), r),
    {
        match self.peek(1) {
            Some(c) => {
                if c == 0x78 || c == 0x58 {
                    self.unescape_hex()
                } else if 0x30 <= c && c <= 0x39 {
                    self.unescape_dec()
                } else {
                    proof {
                        let t = self.source().skip(1);
                        assert(t.skip(0) =~= t);
                        assert(self.pending() =~= Seq::<u8>::empty());
                    }
                    0x26
                }
            },
            None => {
                proof {
                    let t = self.source().skip(1);
                    assert(t.skip(0) =~= t);
                    assert(self.pending() =~= Seq::<u8>::empty());
                }
                0x26
            },
        }
    }

    /// Walks the trie along the source and gives the length and the
    /// expansion id of the longest reference name that the source starts
    /// with.
    fn scan_name(&self) -> (best: Option<(usize, u16)>)
        requires
            self.source().len() > 0,
            is_letter(self.source()[0]),
        ensures
            best is Some <==> longest_named_prefix(self.source(), self.source().len()) is Some,
            best matches Some(found) ==> found.0 == longest_named_prefix(
                self.source(),
                self.source().len(),
            )->0 && decoded(found.1 as int) == named_ref(self.source().take(found.0 as int))->0
                && decoded(found.1 as int).len() > 0,
    {
        proof {
            use_type_invariant(self);
        }
        let len: usize = self.inner.len() - self.pos;
        let ghost s = self.source();
        let mut matcher = Matcher::new();
        let mut best: Option<(usize, u16)> = None;
        let mut i: usize = 0;
        assert(s.take(0) =~= Seq::<u8>::empty());
        loop
            invariant
                self.pos + len == self.inner@.len(),
                self.inner@.len() <= usize::MAX,
                s == self.source(),
                s.len() == len,
                len > 0,
                is_letter(s[0]),
                0 <= i <= len,
                forall|j: int| 0 <= j < i ==> is_alnum(#[trigger] s[j]),
                matcher.node() == walk(s.take(i as int)),
                best is Some <==> longest_named_prefix(s, i as nat) is Some,
                best matches Some(found) ==> found.0 == longest_named_prefix(s, i as nat)->0
                    && decoded(found.1 as int) == named_ref(s.take(found.0 as int))->0 && decoded(
                    found.1 as int,
                ).len() > 0,
            decreases len - i,
        {
            if i >= len {
                return best;
            }
            if i >= LONGEST_NAMED_REFERENCE {
                proof {
                    lemma_longest_above(s, i as nat, len as nat);
                }
                return best;
            }
            let b = self.inner[self.pos + i];
            assert(s[i as int] == b);
            if !alnum(b) && b != 0x3B {
                proof {
                    assert forall|m: int| i < m <= len implies !is_named_prefix(s, m) by {
                        if m > i + 1 {
                            assert(!is_alnum(s[i as int]));
                        }
                    }
                    lemma_longest_above(s, i as nat, len as nat);
                }
                return best;
            }
            let found = matcher.advance(b);
            proof {
                lemma_walk_push(s.take(i as int), b);
                assert(s.take(i + 1) =~= s.take(i as int).push(b));
                assert(is_candidate(s, i + 1));
                assert(named_ref(s.take(i + 1)) == node_value(matcher.node()));
            }
            match found {
                Some(id) => {
                    best = Some((i + 1, id));
                },
                None => {},
            }
            if b == 0x3B || matcher.is_dead() {
                proof {
                    assert forall|m: int| i + 1 < m <= len implies !is_named_prefix(s, m) by {
                        if b == 0x3B {
                            assert(!is_alnum(s[i as int]));
                        } else {
                            assert(s.take(m).take(i + 1) =~= s.take(i + 1));
                            lemma_walk_dead(s.take(m), i + 1);
                        }
                    }
                    lemma_longest_above(s, (i + 1) as nat, len as nat);
                }
                return best;
            }
            i += 1;
        }
    }

    /// Deals with what follows `&`, where a letter stands there.
    fn unescape_named(&mut self) -> (r: u8)
        requires
            old(self).pending().len() == 0,
            old(self).source().len() > 0,
            is_letter(old(self).source()[0]),
        ensures
            Self::resolved(*old(self), *final(self), r),
    {
        proof {
            lemma_longest_is_named(self.source(), self.source().len());
            assert(self.pending() =~= Seq::<u8>::empty());
        }
        match self.scan_name() {
            Some((n, id)) => {
                let bytes = decoded_bytes(id);
                self.replay(bytes, n)
            },
            None => 0x26,
        }
    }

    /// Deals with what follows a `&` that was just taken from the source.
    fn unescape(&mut self) -> (r: u8)
        ensures
            Self::resolved(*old(self), *final(self), r),
    {
        self.drop_buffer();
        match self.peek(0) {
            Some(c) => {
                if c == 0x23 {
                    self.unescape_numerical()
                } else if letter(c) {
                    self.unescape_named()
                } else {
                    0x26
                }
            },
            None => 0x26,
        }
    }

    /// Hands out the next byte of the decoded text, or `None` at its end.
    /// A pending byte goes first. Else one source byte is taken, and, where
    /// it is a `&` that starts a reference, the reference with it.
    pub fn next(&mut self) -> (r: Option<u8>)
        ensures
            old(self).remaining().len() == 0 ==> r is None && final(self).remaining() == old(
                self,
            ).remaining(),
            old(self).remaining().len() > 0 ==> r == Some(old(self).remaining()[0])
                && final(self).remaining() == old(self).remaining().skip(1),
            old(self).pending().len() > 0 ==> final(self).pending() == old(self).pending().skip(1)
                && final(self).source() == old(self).source(),
            old(self).pending().len() == 0 && old(self).source().len() > 0 && old(self).source()[0]
                != 0x26 ==> final(self).pending() == Seq::<u8>::empty() && final(self).source()
                == old(self).source().skip(1),
            old(self).pending().len() == 0 && old(self).source().len() > 0 && old(self).source()[0]
                == 0x26 ==> (match reference(old(self).source().skip(1)) {
                None => final(self).pending() == Seq::<u8>::empty() && final(self).source() == old(
                    self,
                ).source().skip(1),
                Some((n, bytes)) => final(self).pending() == bytes.skip(1) && final(self).source()
                    == old(self).source().skip(1 + n),
            }),
    {
        proof {
            use_type_invariant(&*self);
        }
        if self.index < self.buffer.len() {
            let r = self.unext();
            assert(final(self).remaining() =~= old(self).remaining().skip(1));
            return Some(r);
        }
        assert(self.pending() =~= Seq::<u8>::empty());
        assert(self.source().len() == self.inner@.len() - self.pos);
        if self.pos < self.inner.len() {
            let ghost src = self.source();
            let b = self.inner[self.pos];
            assert(src[0] == b);
            self.pos += 1;
            assert(self.source() =~= src.skip(1));
            if b == 0x26 {
                proof {
                    lemma_reference_bounds(src.skip(1));
                }
                let r = self.unescape();
                proof {
                    let after = src.skip(1);
                    match reference(after) {
                        Some((n, bytes)) => {
                            assert(src.skip(1 + n) =~= after.skip(n));
                            assert(old(self).remaining() =~= bytes + decode(after.skip(n)));
                        },
                        None => {
                            assert(old(self).remaining() =~= seq![0x26u8] + decode(after));
                        },
                    }
                    assert(final(self).remaining() =~= old(self).remaining().skip(1));
                }
                Some(r)
            } else {
                proof {
                    assert(old(self).remaining() =~= seq![b] + decode(src.skip(1)));
                    assert(final(self).remaining() =~= old(self).remaining().skip(1));
                }
                Some(b)
            }
        } else {
            assert(self.source() =~= Seq::<u8>::empty());
            None
        }
    }

    /// Hands out all bytes still to come.
    pub fn collect(self) -> (out: Vec<u8>)
        ensures
            out@ == self.remaining(),
    {
        let mut rest = self;
        let mut out: Vec<u8> = Vec::new();
        let ghost all = self.remaining();
        loop
            invariant
                all == self.remaining(),
                out@ + rest.remaining() == all,
            decreases rest.remaining().len(),
        {
            let ghost before = rest.remaining();
            match rest.next() {
                Some(b) => {
                    out.push(b);
                    assert(out@ + rest.remaining() =~= all) by {
                        assert(before =~= seq![b] + before.skip(1));
                    }
                },
                None => {
                    assert(out@ =~= all);
                    return out;
                },
            }
        }
    }
}

} // verus!
