//! What the decoder makes of well-formed references, and of what the
//! encoder writes.
use crate::codepoint::{
    is_forbidden, is_scalar_value, lemma_resolved_is_scalar, resolve_codepoint, resolved_scalar,
};
use crate::escape::{escape_of, escape_tail, escaped, is_escaped};
use crate::unescape::{
    decode, digits_value, is_alnum, is_candidate,
    is_decimal_digit, is_digit, is_letter, is_named_prefix, lemma_digit_run,
    lemma_digits_value_push, lemma_longest_above, longest_named_prefix, named_reference,
    numeric_reference, reference, MAX_DIGITS,
};
use crate::unescape_named::{
    lemma_named_amp, lemma_named_gt, lemma_named_lt, named_ref, LONGEST_NAMED_REFERENCE,
};
use vstd::prelude::*;
use vstd::utf8::encode_scalar;

verus! {

/// The decimal digits of `n`, without leading zeros.
pub open spec fn decimal(n: nat) -> Seq<u8>
    decreases n,
{
    if n < 10 {
        seq![(0x30 + n) as u8]
    } else {
        decimal(n / 10).push((0x30 + n % 10) as u8)
    }
}

/// Ten to the power `k`.
pub open spec fn pow10(k: nat) -> nat
    decreases k,
{
    if k == 0 {
        1
    } else {
        10 * pow10((k - 1) as nat)
    }
}

/// The decimal digits of a number are digits, and they write that number.
pub proof fn lemma_decimal_digits(n: nat)
    ensures
        decimal(n).len() >= 1,
        forall|j: int| 0 <= j < decimal(n).len() ==> is_decimal_digit(#[trigger] decimal(n)[j]),
        digits_value(decimal(n), false) == n,
    decreases n,
{
    if n < 10 {
        let d = decimal(n);
        assert(d.drop_last() =~= Seq::<u8>::empty());
        assert(digits_value(d.drop_last(), false) == 0);
    } else {
        lemma_decimal_digits(n / 10);
        lemma_digits_value_push(decimal(n / 10), (0x30 + n % 10) as u8, false);
    }
}

/// A number below ten to the power `k` has at most `k` decimal digits.
pub proof fn lemma_decimal_len(n: nat, k: nat)
    requires
        k >= 1,
        n < pow10(k),
    ensures
        decimal(n).len() <= k,
    decreases k,
{
    if n >= 10 {
        if k == 1 {
            assert(pow10(1) == 10) by {
                reveal_with_fuel(pow10, 3);
            }
        } else {
            lemma_decimal_len(n / 10, (k - 1) as nat);
        }
    }
}

/// A decimal reference, whatever follows it, decodes to the bytes that its
/// number resolves to, and what follows is decoded after them.
pub proof fn lemma_decode_decimal(d: Seq<u8>, rest: Seq<u8>)
    requires
        1 <= d.len() <= MAX_DIGITS,
        forall|j: int| 0 <= j < d.len() ==> is_decimal_digit(#[trigger] d[j]),
    ensures
        decode(seq![0x26u8, 0x23u8] + d + seq![0x3Bu8] + rest) == resolve_codepoint(
            digits_value(d, false),
        ) + decode(rest),
{
    let s = seq![0x26u8, 0x23u8] + d + seq![0x3Bu8] + rest;
    let s1 = s.skip(1);
    let t = s1.skip(1);
    let n = d.len() as int;
    let bytes = resolve_codepoint(digits_value(d, false));
    assert(t =~= d + seq![0x3Bu8] + rest);
    assert(t.skip(0) =~= t);
    assert forall|j: int| 0 <= j < n implies is_digit(#[trigger] t[j], false) by {
        assert(t[j] == d[j]);
    }
    assert(t[n] == 0x3B);
    lemma_digit_run(t, n, false);
    assert(t.subrange(0, n) =~= d);
    assert(t[0] == d[0]);
    assert(numeric_reference(t) == Some((n + 1, bytes)));
    assert(s1[0] == 0x23);
    assert(reference(s1) == Some((n + 2, bytes)));
    assert(s.skip(1 + (n + 2)) =~= rest);
    lemma_resolved_is_scalar(digits_value(d, false));
    assert(s[0] == 0x26);
}

/// For every scalar value `n` outside the forbidden ranges, the decimal
/// reference to `n` decodes to the UTF-8 encoding of `n`.
pub proof fn lemma_decimal_reference(n: nat)
    requires
        is_scalar_value(n as int),
        !is_forbidden(n as int),
    ensures
        decode(seq![0x26u8, 0x23u8] + decimal(n) + seq![0x3Bu8]) == encode_scalar(n as u32),
{
    lemma_decimal_digits(n);
    assert(pow10(7) == 10000000) by {
        reveal_with_fuel(pow10, 9);
    }
    lemma_decimal_len(n, 7);
    let s = seq![0x26u8, 0x23u8] + decimal(n) + seq![0x3Bu8];
    lemma_decode_decimal(decimal(n), Seq::<u8>::empty());
    assert(s + Seq::<u8>::empty() =~= s);
    assert(decode(Seq::<u8>::empty()) =~= Seq::<u8>::empty());
    assert(resolved_scalar(n as int) == n as u32);
    assert(resolve_codepoint(n as int) + Seq::<u8>::empty() =~= encode_scalar(n as u32));
}

/// A reference name that ends in `;`, whatever follows it, decodes to the
/// expansion of the name, and what follows is decoded after it.
pub proof fn lemma_decode_named(name: Seq<u8>, rest: Seq<u8>)
    requires
        2 <= name.len() <= LONGEST_NAMED_REFERENCE,
        is_letter(name[0]),
        forall|j: int| 0 <= j < name.len() - 1 ==> is_alnum(#[trigger] name[j]),
        name.last() == 0x3B,
        named_ref(name) is Some,
    ensures
        decode(seq![0x26u8] + name + rest) == named_ref(name)->0 + decode(rest),
{
    let s = seq![0x26u8] + name + rest;
    let s1 = s.skip(1);
    let n = name.len() as int;
    assert(s1 =~= name + rest);
    assert(s1.take(n) =~= name);
    assert(s1[0] == name[0]);
    assert(s1[n - 1] == name[n - 1]);
    assert forall|j: int| 0 <= j < n - 1 implies is_alnum(#[trigger] s1[j]) by {
        assert(s1[j] == name[j]);
    }
    assert(is_candidate(s1, n));
    assert(is_named_prefix(s1, n));
    assert forall|m: int| n < m <= s1.len() implies !is_named_prefix(s1, m) by {
        assert(!is_alnum(s1[n - 1]));
    }
    lemma_longest_above(s1, n as nat, s1.len());
    assert(longest_named_prefix(s1, n as nat) == Some(n));
    assert(named_reference(s1) == Some((n, named_ref(name)->0)));
    assert(reference(s1) == named_reference(s1));
    assert(s.skip(1 + n) =~= rest);
    assert(s[0] == 0x26);
}

/// The numeric escape sequences are `#`, the decimal digits of the byte and
/// `;`.
pub proof fn lemma_numeric_escapes(b: u8)
    requires
        is_escaped(b),
        b != 0x26 && b != 0x3C && b != 0x3E,
    ensures
        escape_tail(b) == seq![0x23u8] + decimal(b as nat) + seq![0x3Bu8],
        decimal(b as nat).len() <= 3,
{
    reveal_with_fuel(decimal, 4);
    assert(escape_tail(b) =~= seq![0x23u8] + decimal(b as nat) + seq![0x3Bu8]);
}

/// The bytes of a reference to a printable ASCII character are that
/// character.
pub proof fn lemma_resolve_ascii(b: u8)
    requires
        0x20 <= b < 0x7F,
    ensures
        resolve_codepoint(b as int) == seq![b],
{
    let v = b as u32;
    assert(v & 0x7F == v) by (bit_vector)
        requires
            v < 0x7F,
    ;
    assert(resolved_scalar(b as int) == v);
    assert(resolve_codepoint(b as int) =~= seq![b]);
}

/// What the encoder writes for one byte, whatever follows it, decodes to
/// that byte, and what follows is decoded after it.
pub proof fn lemma_decode_escape_of(b: u8, rest: Seq<u8>)
    ensures
        decode(escape_of(b) + rest) == seq![b] + decode(rest),
{
    let s = escape_of(b) + rest;
    if !is_escaped(b) {
        assert(s[0] == b);
        assert(s.skip(1) =~= rest);
    } else if b == 0x26 {
        lemma_named_amp();
        let name = seq![0x61u8, 0x6D, 0x70, 0x3B];
        lemma_decode_named(name, rest);
        assert(s =~= seq![0x26u8] + name + rest);
    } else if b == 0x3C {
        lemma_named_lt();
        let name = seq![0x6Cu8, 0x74, 0x3B];
        lemma_decode_named(name, rest);
        assert(s =~= seq![0x26u8] + name + rest);
    } else if b == 0x3E {
        lemma_named_gt();
        let name = seq![0x67u8, 0x74, 0x3B];
        lemma_decode_named(name, rest);
        assert(s =~= seq![0x26u8] + name + rest);
    } else {
        lemma_numeric_escapes(b);
        lemma_decimal_digits(b as nat);
        lemma_decode_decimal(decimal(b as nat), rest);
        lemma_resolve_ascii(b);
        assert(s =~= seq![0x26u8, 0x23u8] + decimal(b as nat) + seq![0x3Bu8] + rest);
    }
}

/// Decoding undoes encoding: what the encoder writes for any bytes decodes
/// to those bytes.
pub proof fn lemma_decode_escaped(s: Seq<u8>)
    ensures
        decode(escaped(s)) == s,
    decreases s.len(),
{
    if s.len() == 0 {
        assert(decode(escaped(s)) =~= s);
    } else {
        lemma_decode_escaped(s.skip(1));
        lemma_decode_escape_of(s[0], escaped(s.skip(1)));
        assert(seq![s[0]] + s.skip(1) =~= s);
    }
}

} // verus!
