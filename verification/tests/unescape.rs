use marksman_escape::Unescape;

fn run_test(from: &str, to: &str) {
    let dv = Unescape::new(from.as_bytes().to_vec()).collect();
    let d = std::str::from_utf8(&dv).unwrap();
    assert_eq!(d, to);
}

#[test]
fn no_escapes() {
    run_test("Hello world!", "Hello world!");
}

#[test]
fn dec_escape() {
    run_test("&#38;", "&");
    run_test("&#62;", ">");
    run_test("&#60;", "<");
    run_test("&#33;", "!");
    run_test("&#&#33;", "&#!");
    run_test("&#;&#33;", "&#;!");
    run_test("&#12345$", "&#12345$");
    run_test("&#0;&#33;", "\u{FFFD}!");
    run_test("&#11822;&#33;", "\u{2E2E}!");
    run_test("&#65533;", "\u{FFFD}");
    run_test("&#1234567890;", "\u{FFFD}");
}

#[test]
fn hex_escape() {
    run_test("&#x26;", "&");
    run_test("&#x3E;", ">");
    run_test("&#x3e;", ">");
    run_test("&#x3C;", "<");
    run_test("&#x3c;", "<");
    run_test("&#x21;", "!");
    run_test("&#&#x21;", "&#!");
    run_test("&#;&#x21;", "&#;!");
    run_test("&#x12345$", "&#x12345$");
    run_test("&#x0;&#x21;", "\u{FFFD}!");
    run_test("&#x2e2E;&#x21;", "\u{2E2E}!");
    run_test("&#x2E2e;&#x21;", "\u{2E2E}!");
    run_test("&#xfffd;", "\u{FFFD}");
    run_test("&#x1234567890ABCDEF;", "\u{FFFD}");
}

#[test]
fn named_escape() {
    run_test("&amp;", "&");
    run_test("&AMP;", "&");
    run_test("&AMP", "&");
    run_test("&AmP;", "&AmP;");
    run_test("&gt;", ">");
    run_test("&Gt;", "\u{226b}");
    run_test("&lt;", "<");
    run_test("&LT", "<");
    run_test("&excl;", "!");
    run_test("&&excl;", "&!");
    run_test("&;&excl;", "&;!");
    run_test("&12345;", "&12345;");
    run_test("&UnderParenthesis;", "\u{23DD}");
    run_test("&underParenthesis;", "&underParenthesis;");
    run_test("&Underparenthesis;", "&Underparenthesis;");
}

fn utf8(c: char) -> String {
    c.to_string()
}

#[test]
fn unescape_markup() {
    run_test("&lt;hello&gt;&amp;world&#60;/hello&#x3e;", "<hello>&world</hello>");
}

#[test]
fn unescape_empty_input() {
    run_test("", "");
    let mut u = Unescape::new(Vec::new());
    assert_eq!(u.next(), None);
    assert_eq!(u.next(), None);
}

#[test]
fn unescape_one_byte_at_a_time() {
    let mut u = Unescape::new("a&euro;&b".as_bytes().to_vec());
    assert_eq!(u.next(), Some(b'a'));
    assert_eq!(u.next(), Some(0xE2));
    assert_eq!(u.next(), Some(0x82));
    assert_eq!(u.next(), Some(0xAC));
    assert_eq!(u.next(), Some(b'&'));
    assert_eq!(u.next(), Some(b'b'));
    assert_eq!(u.next(), None);
    assert_eq!(u.next(), None);
}

#[test]
fn decimal_reference_gives_utf8() {
    let mut n: u32 = 0;
    while n <= 0x10FFFF {
        let forbidden = n <= 0x08
            || n == 0x0B
            || (0x0D..=0x1F).contains(&n)
            || (0x7F..=0x9F).contains(&n)
            || (0xFDD0..=0xFDEF).contains(&n)
            || n % 0x10000 >= 0xFFFE;
        if !forbidden {
            if let Some(c) = char::from_u32(n) {
                run_test(&format!("&#{};", n), &utf8(c));
            }
        }
        n += 7;
    }
    run_test("&#9;", "\t");
    run_test("&#10;", "\n");
    run_test("&#32;", " ");
    run_test("&#126;", "~");
    run_test("&#160;", "\u{A0}");
    run_test("&#8364;", "\u{20AC}");
    run_test("&#55295;", "\u{D7FF}");
    run_test("&#57344;", "\u{E000}");
    run_test("&#128512;", "\u{1F600}");
    run_test("&#1114109;", "\u{10FFFD}");
}

#[test]
fn hexadecimal_reference_gives_utf8() {
    run_test("&#x41;", "A");
    run_test("&#X41;", "A");
    run_test("&#xe9;", "\u{E9}");
    run_test("&#x20ac;", "\u{20AC}");
    run_test("&#x20AC;", "\u{20AC}");
    run_test("&#x1F600;", "\u{1F600}");
    run_test("&#x10FFFD;", "\u{10FFFD}");
    run_test("&#x0041;", "A");
}

#[test]
fn names_are_case_sensitive() {
    run_test("&AMP;", "&");
    run_test("&Amp;", "&Amp;");
}

#[test]
fn legacy_names_need_no_semicolon() {
    run_test("&amp", "&");
    run_test("&LT", "<");
    run_test("&amp and more", "& and more");
    run_test("&copy 2015", "\u{A9} 2015");
    run_test("a&ltb", "a<b");
}

#[test]
fn other_names_need_the_semicolon() {
    run_test("&excl", "&excl");
    run_test("&excl!", "&excl!");
    run_test("&apos", "&apos");
    run_test("&hellip", "&hellip");
}

#[test]
fn ampersand_before_space_is_literal() {
    run_test("& ", "& ");
    run_test("&\t", "&\t");
    run_test("&\n", "&\n");
    run_test("&\u{C}", "&\u{C}");
    run_test("&\"", "&\"");
    run_test("&'", "&'");
    run_test("&<", "&<");
    run_test("&>", "&>");
    run_test("&&", "&&");
    run_test("&", "&");
    run_test("a & b", "a & b");
    run_test("&;", "&;");
    run_test("&1", "&1");
    run_test("&\u{E9}", "&\u{E9}");
}

#[test]
fn forbidden_codepoint_gives_replacement_character() {
    run_test("&#xffff;", "\u{FFFD}");
    run_test("&#xfffe;", "\u{FFFD}");
    run_test("&#x1FFFF;", "\u{FFFD}");
    run_test("&#x10FFFF;", "\u{FFFD}");
    run_test("&#xFDD0;", "\u{FFFD}");
    run_test("&#1;", "\u{FFFD}");
    run_test("&#11;", "\u{FFFD}");
    run_test("&#127;", "\u{FFFD}");
    run_test("&#x81;", "\u{FFFD}");
}

#[test]
fn surrogates_and_large_values_give_replacement_character() {
    run_test("&#xD800;", "\u{FFFD}");
    run_test("&#xDFFF;", "\u{FFFD}");
    run_test("&#x110000;", "\u{FFFD}");
    run_test("&#1114112;", "\u{FFFD}");
    run_test("&#4294967295;", "\u{FFFD}");
    run_test("&#4294967296;", "\u{FFFD}");
    run_test("&#xFFFFFFFFFFFFFFFFFFFFFFFF;", "\u{FFFD}");
}

#[test]
fn legacy_values_give_windows_1252_characters() {
    run_test("&#128;", "\u{20AC}");
    run_test("&#x80;", "\u{20AC}");
    run_test("&#130;", "\u{201A}");
    run_test("&#x99;", "\u{2122}");
    run_test("&#159;", "\u{178}");
}

#[test]
fn numeric_reference_without_terminator_is_kept() {
    run_test("&#12345$", "&#12345$");
    run_test("&#12345", "&#12345");
    run_test("&#x12345", "&#x12345");
    run_test("&#xZ;", "&#xZ;");
    run_test("&#", "&#");
    run_test("&#x", "&#x");
    run_test("&#38", "&#38");
    run_test("&#38 ;", "&#38 ;");
    run_test("&#38&#38;", "&#38&");
    run_test("&#x26&amp;", "&#x26&");
    run_test("&#-1;", "&#-1;");
    run_test("&#+1;", "&#+1;");
    run_test("&#3a;", "&#3a;");
}

#[test]
fn hexadecimal_reference_may_have_no_digit() {
    run_test("&#x;", "\u{FFFD}");
    run_test("&#X;", "\u{FFFD}");
    run_test("&#;", "&#;");
}

#[test]
fn numeric_reference_has_at_most_32_digits() {
    let zeros32 = "0".repeat(30) + "38";
    run_test(&format!("&#{};", zeros32), "&");
    let zeros33 = "0".repeat(31) + "38";
    run_test(&format!("&#{};", zeros33), &format!("&#{};", zeros33));
    let hex32 = "0".repeat(30) + "26";
    run_test(&format!("&#x{};", hex32), "&");
    let hex33 = "0".repeat(31) + "26";
    run_test(&format!("&#x{};", hex33), &format!("&#x{};", hex33));
    let ones = "1".repeat(32);
    run_test(&format!("&#{};", ones), "\u{FFFD}");
    let long = "9".repeat(100000);
    run_test(&format!("&#{};&amp;", long), &format!("&#{};&", long));
}

#[test]
fn longest_name_wins() {
    run_test("&not;", "\u{AC}");
    run_test("&not", "\u{AC}");
    run_test("&notin;", "\u{2209}");
    run_test("&notin", "\u{AC}in");
    run_test("&notit;", "\u{AC}it;");
    run_test("&noti;", "\u{AC}i;");
    run_test("&notx", "\u{AC}x");
    run_test("&ampfoo", "&foo");
    run_test("&amp;amp;", "&amp;");
    run_test("&ampamp;", "&amp;");
    run_test("&copycat", "\u{A9}cat");
    run_test("&gt", ">");
    run_test("&gtdot;", "\u{22D7}");
    run_test("&gtdot", ">dot");
    run_test("&gtrless ", ">rless ");
}

#[test]
fn expansions_of_two_characters() {
    run_test("&nGt;", "\u{226B}\u{20D2}");
    run_test("a&fjlig;b", "afjb");
    run_test("&nvlt;&nvgt;", "<\u{20D2}>\u{20D2}");
}

#[test]
fn references_in_a_row() {
    run_test("&lt;&gt;&amp;", "<>&");
    run_test("&amp;lt;", "&lt;");
    run_test("&amp;#38;", "&#38;");
    run_test("&#38;amp;", "&amp;");
    run_test("&lt&gt&amp", "<>&");
    run_test("&&&amp;&&", "&&&&&");
    run_test("x&#x3C;y&#62;z", "x<y>z");
}

#[test]
fn bytes_that_are_not_utf8_pass_through() {
    let out = Unescape::new(vec![0xFF, b'&', b'l', b't', b';', 0x80, b'&', 0xC3]).collect();
    assert_eq!(out, vec![0xFF, b'<', 0x80, b'&', 0xC3]);
}

#[test]
fn longest_name_is_resolved() {
    run_test("&CounterClockwiseContourIntegral;", "\u{2233}");
    run_test("&CounterClockwiseContourIntegral", "&CounterClockwiseContourIntegral");
    run_test("&CounterClockwiseContourIntegral;;", "\u{2233};");
}

#[test]
fn long_runs_of_letters_are_kept() {
    let run = "a".repeat(33);
    run_test(&format!("&{};", run), &format!("&{};", run));
    let run = "amp".repeat(20000);
    run_test(&format!("&{};", run), &format!("&{};", &run[3..]));
    let run = "x".repeat(100000);
    run_test(&format!("&{}&lt;", run), &format!("&{}<", run));
}

#[test]
fn bytes_far_after_an_ampersand_change_nothing() {
    let head = "&#x00000000000000000000000000000041";
    let a = Unescape::new(format!("{};tail one", head).into_bytes()).collect();
    let b = Unescape::new(format!("{};tail two, longer", head).into_bytes()).collect();
    assert_eq!(a, b"Atail one".to_vec());
    assert_eq!(b, b"Atail two, longer".to_vec());
    let long = "&#x000000000000000000000000000000041";
    run_test(&format!("{};tail", long), &format!("{};tail", long));
}
