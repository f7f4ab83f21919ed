use marksman_escape::get_named_ref;
use marksman_escape::unescape_named::{
    decoded_bytes, expansion_len, Matcher, RefMatch, Trie, LONGEST_NAMED_REFERENCE,
};
use marksman_escape::reference_data::{
    read_decoded_byte, read_decoded_end, read_trie_cell, DECODED_COUNT, DECODED_LEN, NO_ID,
    TRIE_LEN,
};

fn check(name: &str, expansion: &str) {
    assert_eq!(get_named_ref(name.as_bytes()), Some(expansion.as_bytes().to_vec()));
}

fn check_none(name: &str) {
    assert_eq!(get_named_ref(name.as_bytes()), None);
}

#[test]
fn named_refs_with_semicolon() {
    check("amp;", "&");
    check("AMP;", "&");
    check("lt;", "<");
    check("gt;", ">");
    check("quot;", "\"");
    check("apos;", "'");
    check("nbsp;", "\u{A0}");
    check("excl;", "!");
    check("Gt;", "\u{226B}");
    check("UnderParenthesis;", "\u{23DD}");
    check("CounterClockwiseContourIntegral;", "\u{2233}");
}

#[test]
fn named_refs_without_semicolon() {
    check("amp", "&");
    check("AMP", "&");
    check("lt", "<");
    check("LT", "<");
    check("gt", ">");
    check("GT", ">");
    check("quot", "\"");
    check("QUOT", "\"");
    check("nbsp", "\u{A0}");
    check("copy", "\u{A9}");
    check("not", "\u{AC}");
    check("yuml", "\u{FF}");
}

#[test]
fn named_refs_of_two_characters() {
    check("nGt;", "\u{226B}\u{20D2}");
    check("fjlig;", "fj");
    check("NotEqualTilde;", "\u{2242}\u{338}");
    check("nvlt;", "<\u{20D2}");
}

#[test]
fn names_that_are_not_in_the_table() {
    check_none("");
    check_none(";");
    check_none("a");
    check_none("am");
    check_none("Amp;");
    check_none("AmP;");
    check_none("amp;;");
    check_none("amp;x");
    check_none("ampx");
    check_none("apos");
    check_none("excl");
    check_none("underParenthesis;");
    check_none("12345;");
    check_none("&amp;");
    check_none("zzz;");
    check_none("CounterClockwiseContourIntegral");
    check_none("CounterClockwiseContourIntegral;x");
}

#[test]
fn matcher_reports_partial_then_match() {
    let mut m = Matcher::new();
    assert!(matches!(m.feed_byte(b'a'), RefMatch::Partial));
    assert!(matches!(m.feed_byte(b'm'), RefMatch::Partial));
    match m.feed_byte(b'p') {
        RefMatch::Match(bytes) => assert_eq!(bytes, b"&".to_vec()),
        _ => panic!("amp is a name"),
    }
    match m.feed_byte(b';') {
        RefMatch::Match(bytes) => assert_eq!(bytes, b"&".to_vec()),
        _ => panic!("amp; is a name"),
    }
    assert!(matches!(m.feed_byte(b';'), RefMatch::Mismatch));
}

#[test]
fn matcher_stays_dead_after_a_mismatch() {
    let mut m = Matcher::new();
    assert!(!m.is_dead());
    assert!(matches!(m.feed_byte(b'a'), RefMatch::Partial));
    assert!(matches!(m.feed_byte(b'!'), RefMatch::Mismatch));
    assert!(m.is_dead());
    assert!(matches!(m.feed_byte(b'm'), RefMatch::Mismatch));
    assert!(matches!(m.feed_byte(b'p'), RefMatch::Mismatch));
    assert!(matches!(m.feed_byte(b';'), RefMatch::Mismatch));
    assert_eq!(m.advance(b'a'), None);
    assert!(m.is_dead());
}

#[test]
fn matcher_rejects_bytes_outside_every_range() {
    for b in [0u8, b' ', b'#', b'&', b'/', b':', b'@', b'[', b'`', b'{', 0x7F, 0x80, 0xFF] {
        let mut m = Matcher::new();
        assert!(matches!(m.feed_byte(b), RefMatch::Mismatch));
    }
}

#[test]
fn matcher_advance_gives_the_expansion_id() {
    let mut m = Matcher::new();
    assert_eq!(m.advance(b'l'), None);
    let id = m.advance(b't').unwrap();
    assert_eq!(decoded_bytes(id), b"<".to_vec());
    assert_eq!(expansion_len(id), 1);
    assert_eq!(m.advance(b';'), Some(id));
}

#[test]
fn trie_nodes() {
    let root = Trie::root();
    assert_eq!(root.offset, 0);
    assert_eq!(root.id(), NO_ID);
    assert_eq!(root.terminal_id(), None);
    assert!(root.child(b'0').is_none());
    assert!(root.child(b';').is_none());
    let g = root.child(b'g').unwrap();
    assert_eq!(g.terminal_id(), None);
    let gt = g.child(b't').unwrap();
    let id = gt.terminal_id().unwrap();
    assert_eq!(gt.id(), id);
    assert_eq!(decoded_bytes(id), b">".to_vec());
    let gt_semicolon = gt.child(b';').unwrap();
    assert_eq!(gt_semicolon.terminal_id(), Some(id));
    assert!(gt_semicolon.child(b';').is_none());
    assert!(gt_semicolon.child(b'a').is_none());
}

#[test]
fn table_readers_give_zero_past_the_end() {
    assert_eq!(read_trie_cell(0), NO_ID);
    assert_eq!(read_trie_cell(1), 65);
    assert_eq!(TRIE_LEN, 60544);
    assert_eq!(read_trie_cell(TRIE_LEN - 3), 1510);
    assert_eq!(read_trie_cell(TRIE_LEN - 1), 0);
    assert_eq!(read_trie_cell(TRIE_LEN), 0);
    assert_eq!(read_trie_cell(usize::MAX), 0);
    assert_eq!(read_decoded_end(0), 2);
    assert_eq!(DECODED_COUNT, 1511);
    assert_eq!(DECODED_LEN, 4374);
    assert_eq!(read_decoded_end(DECODED_COUNT - 1), 4374);
    assert_eq!(read_decoded_end(DECODED_COUNT), 0);
    assert_eq!(read_decoded_byte(2), b'&');
    assert_eq!(read_decoded_byte(DECODED_LEN - 1), 0x8C);
    assert_eq!(read_decoded_byte(DECODED_LEN), 0);
    assert_eq!(decoded_bytes(NO_ID), Vec::<u8>::new());
    assert_eq!(expansion_len(NO_ID), 0);
    assert_eq!(expansion_len(1511), 0);
    let mut ids = 0;
    let mut bytes = 0;
    for id in 0..=u16::MAX {
        let len = expansion_len(id);
        assert_eq!(decoded_bytes(id).len(), len as usize);
        if len > 0 {
            ids += 1;
            bytes += len as usize;
        }
    }
    assert_eq!(ids, DECODED_COUNT);
    assert_eq!(bytes, DECODED_LEN);
}

struct Census {
    nodes: usize,
    names: usize,
    names_without_semicolon: usize,
    longest: usize,
    longest_expansion: usize,
}

fn visit(node: Trie, depth: usize, last: u8, census: &mut Census) {
    census.nodes += 1;
    if let Some(id) = node.terminal_id() {
        census.names += 1;
        if last != b';' {
            census.names_without_semicolon += 1;
        }
        if depth > census.longest {
            census.longest = depth;
        }
        let expansion = decoded_bytes(id);
        assert!(std::str::from_utf8(&expansion).is_ok());
        assert!(!expansion[1..].contains(&b'&'));
        if expansion.len() > census.longest_expansion {
            census.longest_expansion = expansion.len();
        }
    } else {
        assert_eq!(node.id(), NO_ID);
    }
    let mut children = 0;
    for b in 0..=255u8 {
        if let Some(child) = node.child(b) {
            children += 1;
            assert!(child.offset > node.offset);
            assert_ne!(last, b';');
            if depth == 0 {
                assert!(b.is_ascii_alphabetic());
            } else {
                assert!(b.is_ascii_alphanumeric() || b == b';');
            }
            visit(child, depth + 1, b, census);
        }
    }
    if children == 0 {
        assert_eq!(last, b';');
        assert!(node.terminal_id().is_some());
    }
}

#[test]
fn census_of_the_trie() {
    let mut census = Census {
        nodes: 0,
        names: 0,
        names_without_semicolon: 0,
        longest: 0,
        longest_expansion: 0,
    };
    visit(Trie::root(), 0, 0, &mut census);
    assert_eq!(census.nodes, 9854);
    assert_eq!(census.names, 2231);
    assert_eq!(census.names_without_semicolon, 106);
    assert_eq!(census.longest, LONGEST_NAMED_REFERENCE);
    assert_eq!(census.longest_expansion, 6);
}

#[test]
fn longest_name() {
    let name = "CounterClockwiseContourIntegral;";
    assert_eq!(name.len(), LONGEST_NAMED_REFERENCE);
    check(name, "\u{2233}");
}
