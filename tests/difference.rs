use writecolor::{Color, Difference, Style};

fn transition(prev: &Style, next: &Style) -> String {
    let mut buf: Vec<u8> = Vec::new();
    next.write_difference(&mut buf, prev, true);
    String::from_utf8(buf).unwrap()
}

#[test]
fn same_style_is_unchanged() {
    let styles = [
        Style::new(),
        Color::Red.bold(),
        Color::Rgb(1, 2, 3).on(Color::Fixed(9)).intense(true),
    ];
    for s in styles {
        assert_eq!(Difference::between(&s, &s), Difference::Unchanged);
        assert_eq!(transition(&s, &s), "");
    }
}

#[test]
fn adding_bold_writes_only_bold() {
    let prev = Style::from_fg(Color::Red);
    let mut buf: Vec<u8> = Vec::new();
    prev.write_to(&mut buf, true);
    assert_eq!(buf, b"\x1b[31m".to_vec());
    let next = Style::from_fg(Color::Red).bold(true);
    assert_eq!(
        Difference::between(&prev, &next),
        Difference::Add(Style::new().bold(true))
    );
    assert_eq!(transition(&prev, &next), "\x1b[1m");
}

#[test]
fn dropping_to_default_writes_one_reset() {
    let prev = Style::from_fg(Color::Blue);
    let next = Style::default();
    assert_eq!(Difference::between(&prev, &next), Difference::Reset);
    assert_eq!(transition(&prev, &next), "\x1b[0m");
}

#[test]
fn dropping_an_attribute_resets_then_rewrites() {
    let prev = Color::Red.on(Color::Green).bold(true);
    let next = Color::Blue.bold();
    assert_eq!(Difference::between(&prev, &next), Difference::Reset);
    assert_eq!(transition(&prev, &next), "\x1b[0m\x1b[1m\x1b[34m");
    assert_eq!(
        transition(&prev, &next),
        format!("\x1b[0m{}", transition(&Style::new(), &next))
    );
}

#[test]
fn each_tracked_attribute_forces_reset() {
    let full = Color::Red.on(Color::Green).bold(true).italic(true).underline(true).intense(true);
    let mut no_fg = full;
    no_fg.fg(None);
    let mut no_bg = full;
    no_bg.bg(None);
    let mut no_bold = full;
    no_bold.bold(false);
    let mut no_italic = full;
    no_italic.italic(false);
    let mut no_underline = full;
    no_underline.underline(false);
    let mut no_intense = full;
    no_intense.intense(false);
    for next in [no_fg, no_bg, no_bold, no_italic, no_underline, no_intense] {
        assert_eq!(Difference::between(&full, &next), Difference::Reset);
    }
}

#[test]
fn superset_adds_changed_colors_and_new_flags() {
    let prev = Color::Red.on(Color::Green).bold(true);
    let next = Style {
        fg: Some(Color::Blue),
        bg: Some(Color::Green),
        bold: true,
        dimmed: true,
        ..Style::new()
    };
    assert_eq!(
        Difference::between(&prev, &next),
        Difference::Add(Style {
            fg: Some(Color::Blue),
            dimmed: true,
            ..Style::new()
        })
    );
    assert_eq!(transition(&prev, &next), "\x1b[2m\x1b[34m");
}

#[test]
fn from_default_writes_next_in_full() {
    let next = Color::Cyan.on(Color::Black).underline(true);
    assert_eq!(Difference::between(&Style::new(), &next), Difference::Add(next));
    let mut direct: Vec<u8> = Vec::new();
    next.write_to(&mut direct, true);
    assert_eq!(transition(&Style::new(), &next).into_bytes(), direct);
}

#[test]
fn dropping_untracked_flag_collapses_to_reset_fragment() {
    let prev = Style::new();
    let mut prev = prev;
    prev.fg(Some(Color::Red));
    let prev = Style { dimmed: true, ..prev };
    let next = Style::from_fg(Color::Red);
    assert_eq!(Difference::between(&prev, &next), Difference::Add(Style::new()));
    assert_eq!(transition(&prev, &next), "\x1b[0m");
}
