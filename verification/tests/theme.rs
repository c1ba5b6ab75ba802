use moh_desktop::theme::{
    color_from_str, default_bg, default_btn_size, default_close, default_height, default_inactive, default_max,
    default_min, default_padding, default_text, Theme, ThemeFields,
};

fn no_fields() -> ThemeFields {
    ThemeFields {
        titlebar_height: None,
        titlebar_bg: None,
        titlebar_inactive_bg: None,
        titlebar_text: None,
        btn_close_color: None,
        btn_min_color: None,
        btn_max_color: None,
        btn_size: None,
        btn_padding: None,
    }
}

#[test]
fn defaults_are_the_documented_ones() {
    let t = Theme::default();
    assert_eq!(t.titlebar_height, 30);
    assert_eq!(t.btn_size, 16);
    assert_eq!(t.btn_padding, 8);
    assert_eq!(t.titlebar_bg(), 0x2d5da1);
    assert_eq!(t.titlebar_inactive_bg(), 0x555555);
    assert_eq!(t.titlebar_text(), 0xffffff);
    assert_eq!(t.btn_close(), 0xff5f57);
    assert_eq!(t.btn_min(), 0xffbd2e);
    assert_eq!(t.btn_max(), 0x28c840);
    assert_eq!(default_height(), 30);
    assert_eq!(default_bg(), "#2d5da1");
    assert_eq!(default_inactive(), "#555555");
    assert_eq!(default_text(), "#ffffff");
    assert_eq!(default_close(), "#ff5f57");
    assert_eq!(default_min(), "#ffbd2e");
    assert_eq!(default_max(), "#28c840");
    assert_eq!(default_btn_size(), 16);
    assert_eq!(default_padding(), 8);
}

#[test]
fn parse_color_reads_hex() {
    let t = Theme::default();
    assert_eq!(t.parse_color("#2d5da1"), 0x2d5da1);
    assert_eq!(t.parse_color("2D5DA1"), 0x2d5da1);
    assert_eq!(t.parse_color("##ff"), 0xff);
    assert_eq!(t.parse_color("+10"), 0x10);
    assert_eq!(t.parse_color("#ffffffff"), 0xffffffff);
    assert_eq!(color_from_str("#00000001"), 1);
}

#[test]
fn parse_color_falls_back_to_black() {
    let t = Theme::default();
    assert_eq!(t.parse_color(""), 0);
    assert_eq!(t.parse_color("#"), 0);
    assert_eq!(t.parse_color("+"), 0);
    assert_eq!(t.parse_color("-1"), 0);
    assert_eq!(t.parse_color("#12g4"), 0);
    assert_eq!(t.parse_color("#100000000"), 0);
    assert_eq!(t.parse_color(" #fff"), 0);
    assert_eq!(t.parse_color("#fff "), 0);
    assert_eq!(t.parse_color("#ff\u{e9}"), 0);
}

#[test]
fn parse_color_agrees_with_std() {
    let t = Theme::default();
    for s in ["0", "ff", "+ff", "++1", "1+", "abcdef", "ABCDEF", "0xff", "fffffffff", "00000000ffffffff", "-", "g"] {
        let expected = u32::from_str_radix(s.trim_start_matches('#'), 16).unwrap_or(0);
        assert_eq!(t.parse_color(s), expected, "for {:?}", s);
    }
}

#[test]
fn leading_hash_is_ignored() {
    let t = Theme::default();
    for s in ["abc", "+1", "zz", ""] {
        assert_eq!(t.parse_color(&format!("#{}", s)), t.parse_color(s));
    }
}

#[test]
fn missing_section_gives_default_theme() {
    let t = Theme::from_section(None);
    assert_eq!(t.titlebar_height, 30);
    assert_eq!(t.titlebar_bg, "#2d5da1");
    assert_eq!(t.btn_max_color, "#28c840");
}

#[test]
fn section_entries_override_defaults() {
    let mut f = no_fields();
    f.titlebar_height = Some(24);
    f.btn_close_color = Some("#123456".to_string());
    let t = Theme::from_section(Some(f));
    assert_eq!(t.titlebar_height, 24);
    assert_eq!(t.btn_close(), 0x123456);
    assert_eq!(t.btn_close_color, "#123456");
    assert_eq!(t.titlebar_bg, "#2d5da1");
    assert_eq!(t.btn_size, 16);
    assert_eq!(t.btn_padding, 8);
    let empty = Theme::from_fields(no_fields());
    assert_eq!(empty.titlebar_text, "#ffffff");
    assert_eq!(empty.btn_min_color, "#ffbd2e");
}
