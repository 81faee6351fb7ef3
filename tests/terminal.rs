use cosmicterm::event::Event;
use cosmicterm::keys::{key_bytes, Key};
use cosmicterm::{Size, TerminalInner};

fn fed(bytes: &[u8]) -> TerminalInner {
    let mut t = TerminalInner::new();
    t.feed_bytes(bytes);
    t
}

#[test]
fn hello_then_newline() {
    let t = fed(b"Hello\r\n");
    assert_eq!(t.as_text().split('\n').next(), Some("Hello"));
    assert_eq!(t.as_text(), "Hello\n");
    assert_eq!(t.cursor(), (0, 1));
    assert_eq!(t.line_count(), 2);
}

#[test]
fn erase_entire_display() {
    let mut t = fed(b"abc\r\ndef");
    t.feed_bytes(b"\x1b[2J");
    assert_eq!(t.line_count(), 0);
    assert_eq!(t.as_text(), "");
    assert_eq!(t.cursor(), (0, 0));
    let mut u = fed(b"xyz");
    u.feed_bytes(b"\x1b[3J");
    assert_eq!(u.line_count(), 0);
    assert_eq!(u.cursor(), (0, 0));
}

#[test]
fn cursor_position_one_based() {
    let t = fed(b"\x1b[5;10H");
    assert_eq!(t.cursor(), (9, 4));
    let u = fed(b"\x1b[H");
    assert_eq!(u.cursor(), (0, 0));
    let v = fed(b"\x1b[3;4f");
    assert_eq!(v.cursor(), (3, 2));
    let w = fed(b"\x1b[2000;1H");
    assert_eq!(w.cursor(), (0, 1999));
    assert_eq!(w.line_count(), 0);
}

#[test]
fn overwrite_in_place() {
    let mut t = fed(b"abc");
    t.feed_bytes(b"\x1b[1;2H");
    t.feed_bytes(b"X");
    assert_eq!(t.as_text(), "aXc");
    assert_eq!(t.cursor(), (2, 0));
}

#[test]
fn print_pads_with_spaces() {
    let t = fed(b"\x1b[2;4Hx");
    assert_eq!(t.as_text(), "\n   x");
    assert_eq!(t.cursor(), (4, 1));
}

#[test]
fn overwrite_multibyte_by_character() {
    let t = fed("aéc\r\u{20ac}".as_bytes());
    assert_eq!(t.as_text(), "\u{20ac}éc");
    let u = fed("aéc\x1b[1;2HZ".as_bytes());
    assert_eq!(u.as_text(), "aZc");
}

#[test]
fn scrollback_cap_evicts_oldest() {
    let mut t = TerminalInner::new();
    for i in 0..1001 {
        t.feed_bytes(format!("{}", i).as_bytes());
        if i < 1000 {
            t.feed_bytes(b"\n");
        }
    }
    assert_eq!(t.line_count(), 1000);
    assert_eq!(t.cursor().1, 999);
    let text = t.as_text();
    let lines: Vec<&str> = text.split('\n').collect();
    assert_eq!(lines.len(), 1000);
    assert_eq!(lines[0], "1");
    assert_eq!(lines[999], "1000");
}

#[test]
fn line_feeds_alone_pin_the_cursor_row() {
    let mut t = TerminalInner::new();
    for _ in 0..1001 {
        t.feed_bytes(b"\n");
    }
    assert_eq!(t.cursor(), (0, 999));
    assert_eq!(t.line_count(), 1000);
}

#[test]
fn utf8_split_at_every_point() {
    for s in ["é", "\u{20ac}", "\u{1F600}", "a\u{1F600}b"] {
        let bytes = s.as_bytes();
        let whole = fed(bytes);
        assert_eq!(whole.as_text(), s);
        for k in 0..=bytes.len() {
            let mut t = TerminalInner::new();
            t.feed_bytes(&bytes[..k]);
            t.feed_bytes(&bytes[k..]);
            assert_eq!(t.as_text(), whole.as_text());
            assert_eq!(t.cursor(), whole.cursor());
        }
    }
}

#[test]
fn escape_sequence_split_across_feeds() {
    let bytes = b"ab\x1b[1;1HX";
    for k in 0..=bytes.len() {
        let mut t = TerminalInner::new();
        t.feed_bytes(&bytes[..k]);
        t.feed_bytes(&bytes[k..]);
        assert_eq!(t.as_text(), "Xb");
        assert_eq!(t.cursor(), (1, 0));
    }
}

#[test]
fn resize_twice_is_resize_once() {
    let mut once = fed(b"a\nb\nc");
    once.resize(80, 2);
    let mut twice = fed(b"a\nb\nc");
    twice.resize(80, 2);
    twice.resize(80, 2);
    assert_eq!(once.as_text(), twice.as_text());
    assert_eq!(twice.as_text(), "b\nc");
    twice.resize(80, 0);
    assert_eq!(twice.as_text(), "");
    twice.resize(80, 10);
    assert_eq!(twice.as_text(), "a\nb\nc");
}

#[test]
fn cursor_position_report() {
    let mut t = fed(b"\x1b[3;5H");
    t.feed_bytes(b"\x1b[n");
    assert_eq!(t.take_outbound(), vec![b"\x1b[3;5R".to_vec()]);
    assert_eq!(t.take_outbound(), Vec::<Vec<u8>>::new());
    let mut u = fed(b"\x1b[12;345H\x1b[0n");
    assert_eq!(u.take_outbound(), vec![b"\x1b[12;345R".to_vec()]);
}

#[test]
fn status_query_with_parameters_is_echoed() {
    let mut t = fed(b"\x1b[6n");
    assert_eq!(t.take_outbound(), vec![b"\x1b[6;1R".to_vec()]);
    let mut u = fed(b"\x1b[5;10n");
    assert_eq!(u.take_outbound(), vec![b"\x1b[5;10R".to_vec()]);
}

#[test]
fn write_translates_backspace() {
    let mut t = TerminalInner::new();
    t.write(b"\x08");
    t.write(b"");
    t.write(b"ls\r");
    t.write(b"\x08\x08");
    assert_eq!(
        t.take_outbound(),
        vec![vec![0x7f], b"ls\r".to_vec(), b"\x08\x08".to_vec()]
    );
}

#[test]
fn carriage_return_and_backspace() {
    let t = fed(b"abc\x08\x08Z");
    assert_eq!(t.as_text(), "aZc");
    assert_eq!(t.cursor(), (2, 0));
    let u = fed(b"\x08\x08q");
    assert_eq!(u.as_text(), "q");
    let v = fed(b"hello\rJ");
    assert_eq!(v.as_text(), "Jello");
}

#[test]
fn erase_in_line_modes() {
    let mut t = fed(b"abcdef\x1b[1;3H");
    t.feed_bytes(b"\x1b[K");
    assert_eq!(t.as_text(), "ab");
    let mut u = fed(b"abcdef\x1b[1;3H");
    u.feed_bytes(b"\x1b[1K");
    assert_eq!(u.as_text(), "cdef");
    let mut v = fed(b"abcdef\r\nxy\x1b[1;3H");
    v.feed_bytes(b"\x1b[2K");
    assert_eq!(v.as_text(), "\nxy");
}

#[test]
fn erase_in_display_modes() {
    let mut t = fed(b"abc\r\ndef\r\nghi\x1b[2;2H");
    t.feed_bytes(b"\x1b[J");
    assert_eq!(t.as_text(), "abc\nd");
    let mut u = fed(b"abc\r\ndef\r\nghi\x1b[2;2H");
    u.feed_bytes(b"\x1b[1J");
    assert_eq!(u.as_text(), "\nef\nghi");
    assert_eq!(u.cursor(), (1, 1));
}

#[test]
fn cursor_moves_clamp() {
    let mut t = fed(b"abcd\r\nxy");
    t.feed_bytes(b"\x1b[A");
    assert_eq!(t.cursor(), (2, 0));
    t.feed_bytes(b"\x1b[10C");
    assert_eq!(t.cursor(), (4, 0));
    t.feed_bytes(b"\x1b[5B");
    assert_eq!(t.cursor(), (2, 1));
    t.feed_bytes(b"\x1b[0D");
    assert_eq!(t.cursor(), (1, 1));
    t.feed_bytes(b"\x1b[9D\x1b[9A");
    assert_eq!(t.cursor(), (0, 0));
    let mut e = TerminalInner::new();
    e.feed_bytes(b"\x1b[3A\x1b[2C");
    assert_eq!(e.cursor(), (0, 0));
}

#[test]
fn osc_and_unknown_sequences_are_ignored() {
    let t = fed(b"a\x1b]0;title\x07b\x1b[31mc\x1b[?25hd");
    assert_eq!(t.as_text(), "abcd");
}

#[test]
fn dirty_flag() {
    let mut t = TerminalInner::new();
    assert!(!t.is_dirty());
    t.feed_bytes(b"x");
    assert!(t.is_dirty());
    t.clear_dirty();
    assert!(!t.is_dirty());
    t.feed_bytes(b"\x1b[H");
    assert!(t.is_dirty());
}

#[test]
fn size_fields() {
    let s = Size { cols: 80, rows: 24 };
    assert_eq!(s.cols, 80);
    assert_eq!(s.rows, 24);
}

#[test]
fn apply_events_in_order() {
    let mut t = TerminalInner::new();
    t.apply_events(&vec![
        Event::Print('a'),
        Event::Print('b'),
        Event::Execute(b'\n'),
        Event::Print('c'),
        Event::Osc,
        Event::Csi(vec![vec![1], vec![1]], 'H'),
        Event::Print('Z'),
    ]);
    assert_eq!(t.as_text(), "Zb\nc");
    assert_eq!(t.cursor(), (1, 0));
}

#[test]
fn line_feed_at_the_cap_keeps_the_count() {
    let mut t = TerminalInner::new();
    for i in 0..1000 {
        t.feed_bytes(format!("\r\n{}", i).as_bytes());
    }
    assert_eq!(t.line_count(), 1000);
    assert_eq!(t.cursor(), (3, 999));
    t.feed_bytes(b"\n");
    assert_eq!(t.line_count(), 1000);
    assert_eq!(t.cursor(), (0, 999));
    let text = t.as_text();
    let lines: Vec<&str> = text.split('\n').collect();
    assert_eq!(lines[0], "1");
    assert_eq!(lines[998], "999");
    assert_eq!(lines[999], "");
}

#[test]
fn print_far_below_evicts_to_the_cap() {
    let t = fed(b"top\x1b[2000;1Hx");
    assert_eq!(t.line_count(), 1000);
    assert_eq!(t.cursor(), (1, 999));
    assert!(t.as_text().ends_with("\nx"));
    assert!(!t.as_text().contains("top"));
}

#[test]
fn horizontal_moves_keep_the_row() {
    let mut t = fed(b"\x1b[5;1H");
    t.feed_bytes(b"\x1b[C");
    assert_eq!(t.cursor(), (0, 4));
    let mut u = fed(b"abc\x1b[1;1H");
    u.feed_bytes(b"\x1b[2C");
    assert_eq!(u.cursor(), (2, 0));
    u.feed_bytes(b"\x1b[D");
    assert_eq!(u.cursor(), (1, 0));
}

#[test]
fn characters_after_a_split_character_survive() {
    let s = "\u{e9}A\u{e9}\u{20ac}b";
    let bytes = s.as_bytes();
    for k in 0..=bytes.len() {
        let mut t = TerminalInner::new();
        t.feed_bytes(&bytes[..k]);
        t.feed_bytes(&bytes[k..]);
        assert_eq!(t.as_text(), s);
        assert_eq!(t.cursor(), (5, 0));
    }
}

#[test]
fn arrow_keys_map_to_sequences() {
    assert_eq!(key_bytes(Key::ArrowUp), Some(b"\x1b[A".to_vec()));
    assert_eq!(key_bytes(Key::ArrowDown), Some(b"\x1b[B".to_vec()));
    assert_eq!(key_bytes(Key::ArrowRight), Some(b"\x1b[C".to_vec()));
    assert_eq!(key_bytes(Key::ArrowLeft), Some(b"\x1b[D".to_vec()));
    assert_eq!(key_bytes(Key::Other), None);
}
