//! The encoder: replaces the bytes of a fixed set by character references.
use vstd::prelude::*;

verus! {

/// Length in bytes of the longest escape sequence.
pub const LONGEST_ESCAPE: usize = 6;

/// Whether the encoder replaces the byte `b`.
pub open spec fn is_escaped(b: u8) -> bool {
    b == 0x26 || b == 0x3C || b == 0x3E || b == 0x22 || b == 0x27 || b == 0x60 || b == 0x21 || b
        == 0x24 || b == 0x25 || b == 0x28 || b == 0x29 || b == 0x2B || b == 0x3D || b == 0x40 || b
        == 0x5B || b == 0x5D || b == 0x7B || b == 0x7D
}

/// What follows the `&` in the escape sequence of `b`; empty for a byte that
/// is not replaced.
pub open spec fn escape_tail(b: u8) -> Seq<u8> {
    if b == 0x26 {
        // &amp;
        seq![0x61u8, 0x6D, 0x70, 0x3B]
    } else if b == 0x3E {
        // &gt;
        seq![0x67u8, 0x74, 0x3B]
    } else if b == 0x3C {
        // &lt;
        seq![0x6Cu8, 0x74, 0x3B]
    } else if b == 0x22 {
        // &#34;
        seq![0x23u8, 0x33, 0x34, 0x3B]
    } else if b == 0x27 {
        // &#39;
        seq![0x23u8, 0x33, 0x39, 0x3B]
    } else if b == 0x60 {
        // &#96;
        seq![0x23u8, 0x39, 0x36, 0x3B]
    } else if b == 0x21 {
        // &#33;
        seq![0x23u8, 0x33, 0x33, 0x3B]
    } else if b == 0x24 {
        // &#36;
        seq![0x23u8, 0x33, 0x36, 0x3B]
    } else if b == 0x25 {
        // &#37;
        seq![0x23u8, 0x33, 0x37, 0x3B]
    } else if b == 0x28 {
        // &#40;
        seq![0x23u8, 0x34, 0x30, 0x3B]
    } else if b == 0x29 {
        // &#41;
        seq![0x23u8, 0x34, 0x31, 0x3B]
    } else if b == 0x2B {
        // &#43;
        seq![0x23u8, 0x34, 0x33, 0x3B]
    } else if b == 0x3D {
        // &#61;
        seq![0x23u8, 0x36, 0x31, 0x3B]
    } else if b == 0x40 {
        // &#64;
        seq![0x23u8, 0x36, 0x34, 0x3B]
    } else if b == 0x5B {
        // &#91;
        seq![0x23u8, 0x39, 0x31, 0x3B]
    } else if b == 0x5D {
        // &#93;
        seq![0x23u8, 0x39, 0x33, 0x3B]
    } else if b == 0x7B {
        // &#123;
        seq![0x23u8, 0x31, 0x32, 0x33, 0x3B]
    } else if b == 0x7D {
        // &#125;
        seq![0x23u8, 0x31, 0x32, 0x35, 0x3B]
    } else {
        seq![]
    }
}

/// What the encoder emits for the byte `b`: `&` and the tail for a byte of
/// the escape set, the byte itself for any other.
pub open spec fn escape_of(b: u8) -> Seq<u8> {
    if is_escaped(b) {
        seq![0x26u8] + escape_tail(b)
    } else {
        seq![b]
    }
}

/// What the encoder emits for the bytes `s`: the escape of each, in order.
pub open spec fn escaped(s: Seq<u8>) -> Seq<u8>
    decreases s.len(),
{
    if s.len() == 0 {
        seq![]
    } else {
        escape_of(s[0]) + escaped(s.skip(1))
    }
}

/// The encoder works byte by byte: the escaped form of two runs of bytes
/// joined is their escaped forms joined.
pub proof fn lemma_escaped_concat(a: Seq<u8>, b: Seq<u8>)
    ensures
        escaped(a + b) == escaped(a) + escaped(b),
    decreases a.len(),
{
    if a.len() == 0 {
        assert(a + b =~= b);
        assert(escaped(a) + escaped(b) =~= escaped(b));
    } else {
        assert((a + b).skip(1) =~= a.skip(1) + b);
        lemma_escaped_concat(a.skip(1), b);
        assert(escaped(a + b) =~= escaped(a) + escaped(b));
    }
}

/// The encoder neither drops nor moves a byte outside the escape set: such
/// a byte stands in the output as it is, between the escaped forms of what
/// stood before it and of what stood after it.
pub proof fn lemma_escape_keeps_plain_bytes(a: Seq<u8>, x: u8, b: Seq<u8>)
    requires
        !is_escaped(x),
    ensures
        escaped(a + seq![x] + b) == escaped(a) + seq![x] + escaped(b),
{
    lemma_escaped_concat(a + seq![x], b);
    lemma_escaped_concat(a, seq![x]);
    assert(seq![x].skip(1) =~= Seq::<u8>::empty());
    assert(escaped(Seq::<u8>::empty()) =~= Seq::<u8>::empty());
    assert(escaped(seq![x]) =~= escape_of(x) + escaped(seq![x].skip(1)));
    assert(escaped(seq![x]) =~= seq![x]);
}

/// Bytes of which none is in the escape set pass through the encoder
/// unchanged.
pub proof fn lemma_escaped_plain(s: Seq<u8>)
    requires
        forall|i: int| 0 <= i < s.len() ==> !is_escaped(#[trigger] s[i]),
    ensures
        escaped(s) == s,
    decreases s.len(),
{
    if s.len() > 0 {
        let t = s.skip(1);
        assert forall|i: int| 0 <= i < t.len() implies !is_escaped(#[trigger] t[i]) by {
            assert(t[i] == s[i + 1]);
        }
        lemma_escaped_plain(t);
        assert(escaped(s) =~= s);
    } else {
        assert(escaped(s) =~= s);
    }
}

/// No escape sequence has more than `LONGEST_ESCAPE` bytes, and each starts
/// with `&`.
pub proof fn lemma_escape_of_bounds(b: u8)
    ensures
        1 <= escape_of(b).len() <= LONGEST_ESCAPE,
        is_escaped(b) ==> 3 <= escape_tail(b).len() <= 5 && escape_of(b)[0] == 0x26,
{
}

/// The escaped form is at least as long as the bytes it is made from, and
/// at most `LONGEST_ESCAPE` times as long.
pub proof fn lemma_escaped_len(s: Seq<u8>)
    ensures
        s.len() <= escaped(s).len() <= LONGEST_ESCAPE * s.len(),
    decreases s.len(),
{
    if s.len() > 0 {
        lemma_escape_of_bounds(s[0]);
        lemma_escaped_len(s.skip(1));
    }
}

/// The tail of the escape sequence of `ch` in a buffer, with its length; the
/// length is 0 for a byte that is not replaced.
pub fn escape_table(ch: u8) -> (entry: ([u8; 6], usize))
    ensures
        entry.1 <= 5,
        entry.0@.take(entry.1 as int) == escape_tail(ch),
        is_escaped(ch) <==> entry.1 > 0,
{
    let entry: ([u8; 6], usize) = match ch {
        0x26 => ([0x61, 0x6D, 0x70, 0x3B, 0, 0], 4),
        0x3E => ([0x67, 0x74, 0x3B, 0, 0, 0], 3),
        0x3C => ([0x6C, 0x74, 0x3B, 0, 0, 0], 3),
        0x22 => ([0x23, 0x33, 0x34, 0x3B, 0, 0], 4),
        0x27 => ([0x23, 0x33, 0x39, 0x3B, 0, 0], 4),
        0x60 => ([0x23, 0x39, 0x36, 0x3B, 0, 0], 4),
        0x21 => ([0x23, 0x33, 0x33, 0x3B, 0, 0], 4),
        0x24 => ([0x23, 0x33, 0x36, 0x3B, 0, 0], 4),
        0x25 => ([0x23, 0x33, 0x37, 0x3B, 0, 0], 4),
        0x28 => ([0x23, 0x34, 0x30, 0x3B, 0, 0], 4),
        0x29 => ([0x23, 0x34, 0x31, 0x3B, 0, 0], 4),
        0x2B => ([0x23, 0x34, 0x33, 0x3B, 0, 0], 4),
        0x3D => ([0x23, 0x36, 0x31, 0x3B, 0, 0], 4),
        0x40 => ([0x23, 0x36, 0x34, 0x3B, 0, 0], 4),
        0x5B => ([0x23, 0x39, 0x31, 0x3B, 0, 0], 4),
        0x5D => ([0x23, 0x39, 0x33, 0x3B, 0, 0], 4),
        0x7B => ([0x23, 0x31, 0x32, 0x33, 0x3B, 0], 5),
        0x7D => ([0x23, 0x31, 0x32, 0x35, 0x3B, 0], 5),
        _ => ([0, 0, 0, 0, 0, 0], 0),
    };
    assert(entry.0@.take(entry.1 as int) =~= escape_tail(ch));
    entry
}

/// An encoder over a byte source. Each call of `next` hands out one byte of
/// the escaped text.
pub struct Escape {
    inner: Vec<u8>,
    pos: usize,
    idx: usize,
    len: usize,
    inner_buffer: [u8; 6],
}

impl Escape {
    #[verifier::type_invariant]
    closed spec fn inv(self) -> bool {
        &&& self.pos <= self.inner@.len()
        &&& self.idx <= self.len <= 5
    }

    /// The source bytes that the encoder has not read yet.
    pub closed spec fn source(self) -> Seq<u8> {
        self.inner@.skip(self.pos as int)
    }

    /// The bytes of the escape sequence in progress that are still to come.
    pub closed spec fn pending(self) -> Seq<u8> {
        self.inner_buffer@.subrange(self.idx as int, self.len as int)
    }

    /// All bytes that the encoder will still hand out, in order.
    pub open spec fn remaining(self) -> Seq<u8> {
        self.pending() + escaped(self.source())
    }

    /// An encoder that will hand out the escaped form of `i`.
    pub fn new(i: Vec<u8>) -> (e: Escape)
        ensures
            e.source() == i@,
            e.pending() == Seq::<u8>::empty(),
            e.remaining() == escaped(i@),
    {
        let e = Escape { inner: i, pos: 0, idx: 0, len: 0, inner_buffer: [0, 0, 0, 0, 0, 0] };
        assert(e.source() =~= i@);
        assert(e.pending() =~= Seq::<u8>::empty());
        assert(e.remaining() =~= escaped(i@));
        e
    }

    /// Hands out the next byte of the escaped text, or `None` at its end.
    pub fn next(&mut self) -> (r: Option<u8>)
        ensures
            old(self).remaining().len() == 0 ==> r is None && *final(self) == *old(self),
            old(self).remaining().len() > 0 ==> r == Some(old(self).remaining()[0])
                && final(self).remaining() == old(self).remaining().skip(1),
            old(self).pending().len() > 0 ==> final(self).source() == old(self).source()
                && final(self).pending() == old(self).pending().skip(1),
            old(self).pending().len() == 0 && old(self).source().len() > 0 ==> final(self).source()
                == old(self).source().skip(1) && final(self).pending() == escape_tail(
                old(self).source()[0],
            ),
    {
        proof {
            use_type_invariant(&*self);
        }
        if self.idx < self.len {
            let r = self.inner_buffer[self.idx];
            self.idx += 1;
            proof {
                assert(final(self).pending() =~= old(self).pending().skip(1));
                assert(final(self).remaining() =~= old(self).remaining().skip(1));
            }
            return Some(r);
        }
        assert(self.pending() =~= Seq::<u8>::empty());
        if self.pos < self.inner.len() {
            let ch = self.inner[self.pos];
            let (tail, len) = escape_table(ch);
            self.pos += 1;
            self.idx = 0;
            self.len = len;
            self.inner_buffer = tail;
            proof {
                let src = old(self).source();
                assert(src[0] == ch);
                assert(final(self).source() =~= src.skip(1));
                assert(final(self).pending() =~= escape_tail(ch));
                assert(old(self).remaining() =~= escape_of(ch) + escaped(src.skip(1)));
                assert(final(self).remaining() =~= old(self).remaining().skip(1));
            }
            if len > 0 {
                Some(0x26)
            } else {
                Some(ch)
            }
        } else {
            assert(self.source() =~= Seq::<u8>::empty());
            None
        }
    }

    /// Bounds on the number of bytes still to come: the number of source
    /// bytes not yet read, and six times that number unless it overflows.
    /// The first is a lower bound at any time; the second is an upper bound
    /// between escape sequences, for it leaves the pending bytes out.
    pub fn size_hint(&self) -> (bounds: (usize, Option<usize>))
        ensures
            bounds.0 == self.source().len(),
            bounds.1 == (if self.source().len() * 6 <= usize::MAX {
                Some((self.source().len() * 6) as usize)
            } else {
                None
            }),
            bounds.0 <= self.remaining().len(),
            bounds.1 is Some ==> self.remaining().len() <= bounds.1->0 + self.pending().len(),
    {
        proof {
            use_type_invariant(self);
            lemma_escaped_len(self.source());
        }
        let l: usize = self.inner.len() - self.pos;
        (l, l.checked_mul(LONGEST_ESCAPE))
    }

    /// Hands out all bytes still to come.
    pub fn collect(self) -> (out: Vec<u8>)
        ensures
            out@ == self.remaining(),
    {
        let mut rest = self;
        let mut out: Vec<u8> = Vec::new();
        let ghost all = self.remaining();
        loop
            invariant
                all == self.remaining(),
                out@ + rest.remaining() == all,
            decreases rest.remaining().len(),
        {
            let ghost before = rest.remaining();
            match rest.next() {
                Some(b) => {
                    out.push(b);
                    assert(out@ + rest.remaining() =~= all) by {
                        assert(before =~= seq![b] + before.skip(1));
                    }
                },
                None => {
                    assert(out@ =~= all);
                    return out;
                },
            }
        }
    }
}

} // verus!
