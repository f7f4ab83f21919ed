//! Lookup of named character references: a cursor that walks the prefix
//! trie of the reference names one byte at a time.
use crate::reference_data::{
    decoded_byte, decoded_end, read_decoded_byte, read_decoded_end, read_trie_cell, trie_cell,
    NO_ID,
};
use vstd::prelude::*;

verus! {

/// Length in bytes of the longest reference name, its `;` included.
pub const LONGEST_NAMED_REFERENCE: usize = 32;

/// The id of the expansion of the node at offset `p`, or `NO_ID`.
pub open spec fn node_id(p: int) -> u16 {
    trie_cell(p)
}

/// The smallest byte that labels an edge out of the node at offset `p`.
pub open spec fn node_min(p: int) -> u16 {
    trie_cell(p + 1)
}

/// The number of consecutive byte values that the node at offset `p` has a
/// slot for.
pub open spec fn node_span(p: int) -> u16 {
    trie_cell(p + 2)
}

/// The offset of the child of the node at offset `p` along the byte `b`, or 0
/// where the node has no such child.
pub open spec fn child(p: int, b: u8) -> int {
    if node_min(p) <= b && b - node_min(p) < node_span(p) {
        trie_cell(p + 3 + (b - node_min(p))) as int
    } else {
        0
    }
}

/// One step of the walk: the node reached from `node` along the byte `b`.
/// `None` is the dead state, which no byte leaves.
pub open spec fn step(node: Option<int>, b: u8) -> Option<int> {
    match node {
        None => None,
        Some(p) => if child(p, b) == 0 {
            None
        } else {
            Some(child(p, b))
        },
    }
}

/// The node reached from the root along the bytes of `path`.
pub open spec fn walk(path: Seq<u8>) -> Option<int>
    decreases path.len(),
{
    if path.len() == 0 {
        Some(0)
    } else {
        step(walk(path.drop_last()), path.last())
    }
}

/// The bytes of the expansion with the id `id`.
pub open spec fn decoded(id: int) -> Seq<u8> {
    let start = if id == 0 {
        0
    } else {
        decoded_end(id - 1) as int
    };
    let end = decoded_end(id) as int;
    if start <= end {
        Seq::new((end - start) as nat, |k: int| decoded_byte(start + k))
    } else {
        Seq::empty()
    }
}

/// Whether a name ends at the node at offset `p`: the node carries an id
/// other than `NO_ID`, and the table has a non-empty expansion under it.
pub open spec fn node_terminal(p: int) -> bool {
    node_id(p) != NO_ID && decoded(node_id(p) as int).len() > 0
}

/// The expansion of the name that ends at `node`, if one ends there.
pub open spec fn node_value(node: Option<int>) -> Option<Seq<u8>> {
    match node {
        None => None,
        Some(p) => if node_terminal(p) {
            Some(decoded(node_id(p) as int))
        } else {
            None
        },
    }
}

/// The table of named references as a function: the expansion of `name`
/// (written without the `&`, with the `;` where it has one), if `name` is
/// the name of a reference.
pub open spec fn named_ref(name: Seq<u8>) -> Option<Seq<u8>> {
    if name.len() == 0 {
        None
    } else {
        node_value(walk(name))
    }
}

/// The walk along a path that has one byte more goes one step further.
pub proof fn lemma_walk_push(path: Seq<u8>, b: u8)
    ensures
        walk(path.push(b)) == step(walk(path), b),
{
    assert(path.push(b).drop_last() =~= path);
}

/// Once the walk is dead it stays dead, whatever follows.
pub proof fn lemma_walk_dead(path: Seq<u8>, n: int)
    requires
        0 <= n <= path.len(),
        walk(path.take(n)) is None,
    ensures
        walk(path) is None,
    decreases path.len() - n,
{
    if n < path.len() {
        assert(path.take(n + 1) =~= path.take(n).push(path[n]));
        lemma_walk_push(path.take(n), path[n]);
        lemma_walk_dead(path, n + 1);
    } else {
        assert(path.take(n) =~= path);
    }
}

/// The walk along the bytes `a`, `b` and `c` goes through the walks along
/// `a` and along `a`, `b`.
proof fn lemma_walk_three(a: u8, b: u8, c: u8)
    ensures
        walk(seq![a]) == step(Some(0int), a),
        walk(seq![a, b]) == step(walk(seq![a]), b),
        walk(seq![a, b, c]) == step(walk(seq![a, b]), c),
{
    assert(walk(Seq::<u8>::empty()) == Some(0int));
    lemma_walk_push(Seq::<u8>::empty(), a);
    assert(Seq::<u8>::empty().push(a) =~= seq![a]);
    lemma_walk_push(seq![a], b);
    assert(seq![a].push(b) =~= seq![a, b]);
    lemma_walk_push(seq![a, b], c);
    assert(seq![a, b].push(c) =~= seq![a, b, c]);
}

/// The table holds `amp;`, and it stands for `&`.
pub proof fn lemma_named_amp()
    ensures
        named_ref(seq![0x61u8, 0x6D, 0x70, 0x3B]) == Some(seq![0x26u8]),
{
    crate::reference_data::trie_00::lemma_basic_reference_cells();
    crate::reference_data::trie_07::lemma_basic_reference_cells();
    crate::reference_data::ends::lemma_basic_reference_cells();
    crate::reference_data::bytes_0::lemma_basic_reference_cells();
    lemma_walk_three(0x61, 0x6D, 0x70);
    assert(walk(seq![0x61u8]) == Some(18867int));
    assert(walk(seq![0x61u8, 0x6D]) == Some(19244int));
    assert(walk(seq![0x61u8, 0x6D, 0x70]) == Some(19298int));
    lemma_walk_push(seq![0x61u8, 0x6D, 0x70], 0x3B);
    assert(seq![0x61u8, 0x6D, 0x70].push(0x3B) =~= seq![0x61u8, 0x6D, 0x70, 0x3B]);
    assert(walk(seq![0x61u8, 0x6D, 0x70, 0x3B]) == Some(19302int));
    assert(node_id(19302) == 1);
    assert(decoded(1) =~= seq![0x26u8]);
}

/// The table holds `lt;`, and it stands for `<`.
pub proof fn lemma_named_lt()
    ensures
        named_ref(seq![0x6Cu8, 0x74, 0x3B]) == Some(seq![0x3Cu8]),
{
    crate::reference_data::trie_00::lemma_basic_reference_cells();
    crate::reference_data::trie_13::lemma_basic_reference_cells();
    crate::reference_data::trie_14::lemma_basic_reference_cells();
    crate::reference_data::ends::lemma_basic_reference_cells();
    crate::reference_data::bytes_0::lemma_basic_reference_cells();
    lemma_walk_three(0x6C, 0x74, 0x3B);
    assert(walk(seq![0x6Cu8]) == Some(34288int));
    assert(walk(seq![0x6Cu8, 0x74]) == Some(38282int));
    assert(walk(seq![0x6Cu8, 0x74, 0x3B]) == Some(38341int));
    assert(node_id(38341) == 214);
    assert(decoded(214) =~= seq![0x3Cu8]);
}

/// The table holds `gt;`, and it stands for `>`.
pub proof fn lemma_named_gt()
    ensures
        named_ref(seq![0x67u8, 0x74, 0x3B]) == Some(seq![0x3Eu8]),
{
    crate::reference_data::trie_00::lemma_basic_reference_cells();
    crate::reference_data::trie_11::lemma_basic_reference_cells();
    crate::reference_data::trie_12::lemma_basic_reference_cells();
    crate::reference_data::ends::lemma_basic_reference_cells();
    crate::reference_data::bytes_0::lemma_basic_reference_cells();
    lemma_walk_three(0x67, 0x74, 0x3B);
    assert(walk(seq![0x67u8]) == Some(30054int));
    assert(walk(seq![0x67u8, 0x74]) == Some(31367int));
    assert(walk(seq![0x67u8, 0x74, 0x3B]) == Some(31426int));
    assert(node_id(31426) == 145);
    assert(decoded(145) =~= seq![0x3Eu8]);
}

/// What the matcher reports after a byte.
pub enum RefMatch {
    /// The bytes fed so far are a name; its expansion.
    Match(Vec<u8>),
    /// The bytes fed so far are no name, but more bytes may make one.
    Partial,
    /// No name starts with the bytes fed so far.
    Mismatch,
}

/// A node of the trie, known by the offset of its record in the table.
#[derive(Clone, Copy)]
pub struct Trie {
    pub offset: u16,
}

impl Trie {
    /// The root of the trie.
    pub fn root() -> (t: Trie)
        ensures
            t.offset == 0,
    {
        Trie { offset: 0 }
    }

    /// The id of the expansion of the name that ends at this node, or
    /// `NO_ID` where none ends here.
    pub fn id(&self) -> (id: u16)
        ensures
            id == node_id(self.offset as int),
    {
        read_trie_cell(self.offset as usize)
    }

    /// The child of this node along `byte`, if it has one.
    pub fn child(&self, byte: u8) -> (next: Option<Trie>)
        ensures
            child(self.offset as int, byte) == 0 ==> next is None,
            child(self.offset as int, byte) != 0 ==> next is Some && next->0.offset == child(
                self.offset as int,
                byte,
            ),
    {
        let p: usize = self.offset as usize;
        let min: u16 = read_trie_cell(p + 1);
        let span: u16 = read_trie_cell(p + 2);
        let b: u16 = byte as u16;
        if b < min || b - min >= span {
            return None;
        }
        let c: u16 = read_trie_cell(p + 3 + (b - min) as usize);
        if c == 0 {
            None
        } else {
            Some(Trie { offset: c })
        }
    }

    /// The id of the expansion of the name that ends at this node, if one
    /// ends here.
    pub fn terminal_id(&self) -> (id: Option<u16>)
        ensures
            id is Some <==> node_terminal(self.offset as int),
            id is Some ==> id->0 == node_id(self.offset as int),
    {
        let id: u16 = self.id();
        if id != NO_ID && expansion_len(id) > 0 {
            Some(id)
        } else {
            None
        }
    }
}

/// The number of bytes in the expansion with the id `id`.
pub fn expansion_len(id: u16) -> (len: u16)
    ensures
        len == decoded(id as int).len(),
{
    let start: u16 = if id == 0 {
        0
    } else {
        read_decoded_end((id - 1) as usize)
    };
    let end: u16 = read_decoded_end(id as usize);
    if start <= end {
        end - start
    } else {
        0
    }
}

/// Copies out the bytes of the expansion with the id `id`.
pub fn decoded_bytes(id: u16) -> (bytes: Vec<u8>)
    ensures
        bytes@ == decoded(id as int),
{
    let start: u16 = if id == 0 {
        0
    } else {
        read_decoded_end((id - 1) as usize)
    };
    let end: u16 = read_decoded_end(id as usize);
    let mut bytes: Vec<u8> = Vec::new();
    if start > end {
        assert(bytes@ =~= decoded(id as int));
        return bytes;
    }
    let mut i: u16 = start;
    while i < end
        invariant
            start <= i <= end,
            bytes@.len() == i - start,
            forall|k: int| 0 <= k < bytes@.len() ==> bytes@[k] == decoded_byte(start + k),
        decreases end - i,
    {
        bytes.push(read_decoded_byte(i as usize));
        i += 1;
    }
    assert(bytes@ =~= decoded(id as int));
    bytes
}

/// A cursor into the trie. It starts at the root and follows one edge for
/// each byte fed; a byte without an edge kills it for good.
pub struct Matcher {
    node: Option<Trie>,
}

impl Matcher {
    /// The node the cursor is at, by the offset of its record; `None` once
    /// the cursor is dead.
    pub closed spec fn node(&self) -> Option<int> {
        match self.node {
            None => None,
            Some(t) => Some(t.offset as int),
        }
    }

    /// A cursor at the root.
    pub fn new() -> (m: Matcher)
        ensures
            m.node() == Some(0int),
    {
        Matcher { node: Some(Trie::root()) }
    }

    /// Whether the cursor is dead: some byte fed had no edge.
    pub fn is_dead(&self) -> (dead: bool)
        ensures
            dead == (self.node() is None),
    {
        self.node.is_none()
    }

    /// Follows the edge that `byte` labels, and gives the id of the
    /// expansion of the name that ends where the cursor now is, if one does.
    pub fn advance(&mut self, byte: u8) -> (id: Option<u16>)
        ensures
            final(self).node() == step(old(self).node(), byte),
            id is Some <==> node_value(final(self).node()) is Some,
            id is Some ==> id->0 == node_id(final(self).node()->0),
    {
        match self.node {
            None => None,
            Some(t) => {
                match t.child(byte) {
                    None => {
                        self.node = None;
                        None
                    },
                    Some(next) => {
                        self.node = Some(next);
                        next.terminal_id()
                    },
                }
            },
        }
    }

    /// Follows the edge that `byte` labels and reports what the bytes fed so
    /// far amount to.
    pub fn feed_byte(&mut self, byte: u8) -> (r: RefMatch)
        ensures
            final(self).node() == step(old(self).node(), byte),
            r is Mismatch <==> final(self).node() is None,
            r is Partial <==> final(self).node() is Some && node_value(final(self).node()) is None,
            r is Match <==> node_value(final(self).node()) is Some,
            r is Match ==> r->Match_0@ == node_value(final(self).node())->0,
    {
        match self.advance(byte) {
            Some(id) => RefMatch::Match(decoded_bytes(id)),
            None => {
                if self.is_dead() {
                    RefMatch::Mismatch
                } else {
                    RefMatch::Partial
                }
            },
        }
    }
}

/// The expansion of the reference named `name` (without the `&`, with the
/// `;` where the name has one), or `None` where there is no such reference.
pub fn get_named_ref(name: &[u8]) -> (r: Option<Vec<u8>>)
    ensures
        r is Some <==> named_ref(name@) is Some,
        r is Some ==> r->0@ == named_ref(name@)->0,
{
    let mut matcher = Matcher::new();
    let mut r = RefMatch::Mismatch;
    let mut i: usize = 0;
    while i < name.len()
        invariant
            0 <= i <= name@.len(),
            matcher.node() == walk(name@.take(i as int)),
            i == 0 ==> r is Mismatch,
            i > 0 ==> (r is Match <==> node_value(matcher.node()) is Some),
            i > 0 && r is Match ==> r->Match_0@ == node_value(matcher.node())->0,
        decreases name@.len() - i,
    {
        proof {
            lemma_walk_push(name@.take(i as int), name@[i as int]);
            assert(name@.take(i + 1) =~= name@.take(i as int).push(name@[i as int]));
        }
        r = matcher.feed_byte(name[i]);
        i += 1;
    }
    assert(name@.take(i as int) =~= name@);
    match r {
        RefMatch::Match(m) => Some(m),
        _ => None,
    }
}

} // verus!
