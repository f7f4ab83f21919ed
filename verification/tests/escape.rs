use marksman_escape::escape::{escape_table, LONGEST_ESCAPE};
use marksman_escape::{Escape, Unescape};

fn escape(from: &[u8]) -> Vec<u8> {
    Escape::new(from.to_vec()).collect()
}

fn check_escape(from: &str, to: &str) {
    assert_eq!(escape(from.as_bytes()), to.as_bytes().to_vec());
}

#[test]
fn escape_markup() {
    check_escape("<hello>&world</hello>", "&lt;hello&gt;&amp;world&lt;/hello&gt;");
}

#[test]
fn escape_empty_input() {
    check_escape("", "");
    let mut e = Escape::new(Vec::new());
    assert_eq!(e.next(), None);
    assert_eq!(e.next(), None);
}

#[test]
fn escape_each_byte_of_the_set() {
    check_escape("&", "&amp;");
    check_escape("<", "&lt;");
    check_escape(">", "&gt;");
    check_escape("\"", "&#34;");
    check_escape("'", "&#39;");
    check_escape("`", "&#96;");
    check_escape("!", "&#33;");
    check_escape("$", "&#36;");
    check_escape("%", "&#37;");
    check_escape("(", "&#40;");
    check_escape(")", "&#41;");
    check_escape("+", "&#43;");
    check_escape("=", "&#61;");
    check_escape("@", "&#64;");
    check_escape("[", "&#91;");
    check_escape("]", "&#93;");
    check_escape("{", "&#123;");
    check_escape("}", "&#125;");
}

#[test]
fn escape_set_has_eighteen_bytes() {
    let mut listed = 0;
    for b in 0..=255u8 {
        let out = escape(&[b]);
        if out != vec![b] {
            listed += 1;
            assert_eq!(out[0], b'&');
            assert_eq!(*out.last().unwrap(), b';');
            assert!(3 <= out.len() && out.len() <= LONGEST_ESCAPE);
        }
    }
    assert_eq!(listed, 18);
}

#[test]
fn escape_table_entries() {
    let (tail, len) = escape_table(b'&');
    assert_eq!(&tail[..len], b"amp;");
    let (tail, len) = escape_table(b'{');
    assert_eq!(&tail[..len], b"#123;");
    let (_, len) = escape_table(b'a');
    assert_eq!(len, 0);
}

#[test]
fn escape_passes_other_bytes_through() {
    check_escape("Hello, world. 0123456789 #;:/\\?*-_~^|", "Hello, world. 0123456789 #;:/\\?*-_~^|");
    check_escape("\u{20AC}\u{1F600}\t\r\n", "\u{20AC}\u{1F600}\t\r\n");
    assert_eq!(escape(&[0, 1, 0x7F, 0x80, 0xFF]), vec![0, 1, 0x7F, 0x80, 0xFF]);
}

#[test]
fn escape_keeps_plain_bytes_in_place() {
    check_escape("a<b", "a&lt;b");
    check_escape("x{y}z", "x&#123;y&#125;z");
    check_escape("1+1=2", "1&#43;1&#61;2");
}

#[test]
fn escape_one_byte_at_a_time() {
    let mut e = Escape::new(b"a&b".to_vec());
    assert_eq!(e.next(), Some(b'a'));
    assert_eq!(e.next(), Some(b'&'));
    assert_eq!(e.next(), Some(b'a'));
    assert_eq!(e.next(), Some(b'm'));
    assert_eq!(e.next(), Some(b'p'));
    assert_eq!(e.next(), Some(b';'));
    assert_eq!(e.next(), Some(b'b'));
    assert_eq!(e.next(), None);
    assert_eq!(e.next(), None);
}

#[test]
fn escape_size_hint() {
    let e = Escape::new(b"a&b".to_vec());
    assert_eq!(e.size_hint(), (3, Some(18)));
    let mut e = Escape::new(b"<>".to_vec());
    assert_eq!(e.next(), Some(b'&'));
    assert_eq!(e.size_hint(), (1, Some(6)));
    let e = Escape::new(Vec::new());
    assert_eq!(e.size_hint(), (0, Some(0)));
}

#[test]
fn unescape_undoes_escape() {
    let mut all: Vec<u8> = Vec::new();
    for b in 0..=255u8 {
        all.push(b);
    }
    all.extend_from_slice(b"&amp;&#38;&lt<>&&;;##x{}");
    let escaped = escape(&all);
    assert_eq!(Unescape::new(escaped).collect(), all);
    let text = "if (a < b && c > d) { x[0] = \"y\" + 'z'; } `$%@!`";
    let escaped = escape(text.as_bytes());
    assert_eq!(Unescape::new(escaped).collect(), text.as_bytes().to_vec());
}
