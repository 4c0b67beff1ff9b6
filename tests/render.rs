use std::str;

use writecolor::{allows_color, Color, Style};

fn rendered(style: &Style) -> String {
    let mut buf: Vec<u8> = Vec::new();
    style.write_to(&mut buf, true);
    String::from_utf8(buf).unwrap()
}

#[test]
fn ansi_write_256() {
    let mut buf: Vec<u8> = Vec::new();
    Style::default().write_to(&mut buf, true);
    buf.extend_from_slice(b"text/plain");
    assert_eq!(str::from_utf8(&buf).unwrap(), "\x1b[0mtext/plain");
}

#[test]
fn intense() {
    assert_eq!(rendered(&Color::Cyan.intense()), "\x1b[38;5;14m");
}

#[test]
fn rgb() {
    assert_eq!(rendered(&Color::Rgb(254, 253, 255).normal()), "\x1b[38;2;254;253;255m");
}

#[test]
fn bold() {
    assert_eq!(rendered(&Color::White.bold()), "\x1b[1m\x1b[37m");
}

#[test]
fn default_style_writes_four_byte_reset() {
    let mut buf: Vec<u8> = Vec::new();
    Style::new().write_to(&mut buf, true);
    assert_eq!(buf, vec![0x1b, b'[', b'0', b'm']);
}

#[test]
fn named_foreground_direct_codes() {
    let cases = [
        (Color::Black, "\x1b[30m"),
        (Color::Red, "\x1b[31m"),
        (Color::Green, "\x1b[32m"),
        (Color::Yellow, "\x1b[33m"),
        (Color::Blue, "\x1b[34m"),
        (Color::Magenta, "\x1b[35m"),
        (Color::Cyan, "\x1b[36m"),
        (Color::White, "\x1b[37m"),
    ];
    for (c, want) in cases {
        assert_eq!(rendered(&Style::from_fg(c)), want);
    }
}

#[test]
fn named_background_direct_codes() {
    assert_eq!(rendered(&Style::from_bg(Color::Black)), "\x1b[40m");
    assert_eq!(rendered(&Style::from_bg(Color::White)), "\x1b[47m");
}

#[test]
fn intense_named_foreground_bright_indices() {
    let cases = [
        (Color::Black, "\x1b[38;5;8m"),
        (Color::Red, "\x1b[38;5;9m"),
        (Color::Green, "\x1b[38;5;10m"),
        (Color::Yellow, "\x1b[38;5;11m"),
        (Color::Blue, "\x1b[38;5;12m"),
        (Color::Magenta, "\x1b[38;5;13m"),
        (Color::Cyan, "\x1b[38;5;14m"),
        (Color::White, "\x1b[38;5;15m"),
    ];
    for (c, want) in cases {
        assert_eq!(rendered(&c.intense()), want);
    }
}

#[test]
fn intense_named_background_bright_index() {
    let style = Style::from_bg(Color::Magenta).intense(true);
    assert_eq!(rendered(&style), "\x1b[48;5;13m");
}

#[test]
fn rgb_ignores_intense_on_both_layers() {
    let fg = Style::from_fg(Color::Rgb(1, 22, 133));
    let bg = Style::from_bg(Color::Rgb(0, 9, 255));
    assert_eq!(rendered(&fg), "\x1b[38;2;1;22;133m");
    assert_eq!(rendered(&fg.clone().intense(true)), "\x1b[38;2;1;22;133m");
    assert_eq!(rendered(&bg), "\x1b[48;2;0;9;255m");
    assert_eq!(rendered(&bg.clone().intense(true)), "\x1b[48;2;0;9;255m");
}

#[test]
fn fixed_palette_ignores_intense() {
    let fg = Style::from_fg(Color::Fixed(200));
    assert_eq!(rendered(&fg), "\x1b[38;5;200m");
    assert_eq!(rendered(&fg.clone().intense(true)), "\x1b[38;5;200m");
    assert_eq!(rendered(&Style::from_bg(Color::Fixed(0))), "\x1b[48;5;0m");
}

#[test]
fn all_flags_then_colors_in_fixed_order() {
    let style = Style {
        fg: Some(Color::Green),
        bg: Some(Color::Red),
        bold: true,
        dimmed: true,
        italic: true,
        underline: true,
        blink: true,
        reverse: true,
        hidden: true,
        strikethrough: true,
        intense: false,
    };
    assert_eq!(
        rendered(&style),
        "\x1b[1m\x1b[2m\x1b[3m\x1b[4m\x1b[5m\x1b[7m\x1b[8m\x1b[9m\x1b[32m\x1b[41m"
    );
}

#[test]
fn intense_alone_renders_nothing() {
    let style = Style::new().intense(true);
    assert_eq!(rendered(&style), "");
}

#[test]
fn color_disabled_writes_nothing() {
    let style = Color::Red.on(Color::Blue).bold(true);
    let mut buf: Vec<u8> = vec![7];
    style.write_to(&mut buf, false);
    Style::new().write_to(&mut buf, false);
    style.write_difference(&mut buf, &Style::new(), false);
    Style::new().write_difference(&mut buf, &style, false);
    assert_eq!(buf, vec![7]);
}

#[test]
fn write_appends_after_existing_bytes() {
    let mut buf: Vec<u8> = b"ab".to_vec();
    Style::from_fg(Color::Red).write_to(&mut buf, true);
    assert_eq!(buf, b"ab\x1b[31m".to_vec());
}

#[test]
fn paint_wraps_text() {
    let painted = Style::from_fg(Color::Blue).bold(true).paint("hi", true);
    assert_eq!(painted, b"\x1b[1m\x1b[34mhi\x1b[0m".to_vec());
    assert_eq!(Color::Red.paint("x", true), b"\x1b[31mx\x1b[0m".to_vec());
    assert_eq!(Color::Red.paint("x", false), b"x".to_vec());
}

#[test]
fn paint_keeps_utf8_bytes() {
    assert_eq!(Color::Green.paint("é", true), "\x1b[32mé\x1b[0m".as_bytes().to_vec());
}

#[test]
fn color_allowed_only_with_capability_and_no_opt_out() {
    assert!(allows_color(true, false));
    assert!(!allows_color(true, true));
    assert!(!allows_color(false, false));
    assert!(!allows_color(false, true));
}
