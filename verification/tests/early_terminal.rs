use turbofish::early_terminal::{EarlyTerminal, ScreenUpdate};

#[derive(Debug, Copy, Clone, PartialEq, Eq)]
enum Color {
    White,
    Red,
}

#[test]
fn new_terminal_is_empty() {
    let t = EarlyTerminal::new(Color::White);
    assert_eq!((t.cursor.x, t.cursor.y, t.cursor.lines, t.cursor.columns), (0, 0, 25, 80));
    assert_eq!(t.buf.len(), 2000);
    assert!(t.buf.iter().all(|c| c.is_none()));
}

#[test]
fn bytes_are_drawn_under_the_cursor() {
    let mut t = EarlyTerminal::new(Color::White);
    let u = t.write_str(b"ab\nc");
    assert_eq!(
        u,
        vec![
            ScreenUpdate::Draw { c: b'a', line: 0, column: 0, color: Color::White },
            ScreenUpdate::Draw { c: b'b', line: 0, column: 1, color: Color::White },
            ScreenUpdate::Draw { c: b'c', line: 1, column: 0, color: Color::White },
        ]
    );
    assert_eq!((t.cursor.x, t.cursor.y), (1, 1));
    assert_eq!(t.buf[1], Some((b'b', Color::White)));
    assert_eq!(t.buf[80], Some((b'c', Color::White)));
    t.set_text_color(Color::Red);
    let u = t.write_str(b"d");
    assert_eq!(u, vec![ScreenUpdate::Draw { c: b'd', line: 1, column: 1, color: Color::Red }]);
}

#[test]
fn newline_on_the_last_line_scrolls() {
    let mut t = EarlyTerminal::new(Color::White);
    t.write_str(b"ab");
    let u = t.write_str(&[b'\n'; 24]);
    assert!(u.is_empty());
    assert_eq!(t.cursor.y, 24);
    let u = t.write_str(b"\n");
    assert_eq!(u, vec![ScreenUpdate::Redraw]);
    assert_eq!((t.cursor.x, t.cursor.y), (0, 24));
    assert_eq!(t.buf[0], None);
}

#[test]
fn a_full_line_wraps() {
    let mut t = EarlyTerminal::new(Color::White);
    let u = t.write_str(&[b'x'; 81]);
    assert_eq!(u.len(), 81);
    assert_eq!((t.cursor.x, t.cursor.y), (1, 1));
    assert_eq!(t.buf[80], Some((b'x', Color::White)));
}

#[test]
fn writing_in_two_parts_is_writing_the_whole() {
    let mut a = EarlyTerminal::new(Color::White);
    let mut u = a.write_str(b"hello\n");
    u.extend(a.write_str(b"world"));
    let mut b = EarlyTerminal::new(Color::White);
    let v = b.write_str(b"hello\nworld");
    assert_eq!(u, v);
    assert_eq!(a.buf, b.buf);
    assert_eq!(a.cursor, b.cursor);
}
