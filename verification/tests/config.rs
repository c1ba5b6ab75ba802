use moh_desktop::config::{Config, Configs, Modules};
use moh_desktop::text::{chars_eq, chars_of, chars_start_with, is_blank, lines_of, split_chars, trim_chars};

#[test]
fn developer_flag_is_read() {
    assert!(Configs::from_text("developer = true\n").developer);
    assert!(Configs::from_text("  developer=true").developer);
    assert!(Configs::from_text("[desktop]\r\ndeveloper =   true  \r\nother = 1\r\n").developer);
    assert!(Configs::from_text("developer_mode = true").developer);
}

#[test]
fn developer_flag_defaults_to_off() {
    assert!(!Configs::from_text("").developer);
    assert!(!Configs::from_text("developer = false").developer);
    assert!(!Configs::from_text("developer").developer);
    assert!(!Configs::from_text("developer = True").developer);
    assert!(!Configs::from_text("# developer = true").developer);
    assert!(!Configs::from_text("dev = true").developer);
}

#[test]
fn first_developer_line_decides() {
    assert!(!Configs::from_text("developer = false\ndeveloper = true\n").developer);
    assert!(Configs::from_text("developer = true\ndeveloper = false\n").developer);
    assert!(Configs::from_text("developer = true = yes").developer);
    assert!(!Configs::from_text("developer = yes = true").developer);
}

#[test]
fn lines_follow_std() {
    for text in ["", "a", "a\n", "a\nb", "a\r\nb\r\n", "\n\n", "x\r", "a\rb\n", "\r\n"] {
        let ours: Vec<String> = lines_of(text).iter().map(|l| l.iter().collect()).collect();
        let std: Vec<String> = text.lines().map(|l| l.to_string()).collect();
        assert_eq!(ours, std, "for {:?}", text);
    }
}

#[test]
fn trim_follows_std() {
    for text in ["", "  ", " a ", "\t\u{a0}x\u{3000}", "a b", "\u{200b}x"] {
        let cs = chars_of(text);
        let ours: String = trim_chars(&cs).into_iter().collect();
        assert_eq!(ours, text.trim(), "for {:?}", text);
        assert_eq!(is_blank(text), text.trim().is_empty());
    }
}

#[test]
fn split_follows_std() {
    for text in ["", "=", "a=b", "a==b", "developer = true"] {
        let cs = chars_of(text);
        let ours: Vec<String> = split_chars(&cs, '=').iter().map(|p| p.iter().collect()).collect();
        let std: Vec<String> = text.split('=').map(|p| p.to_string()).collect();
        assert_eq!(ours, std);
    }
}

#[test]
fn char_helpers() {
    let a = chars_of("héllo");
    assert_eq!(a.len(), 5);
    assert!(chars_start_with(&a, &chars_of("hé")));
    assert!(!chars_start_with(&a, &chars_of("hello")));
    assert!(chars_eq(&a, &chars_of("héllo")));
    assert!(!chars_eq(&a, &chars_of("héll")));
}

#[test]
fn modules_start_in_order() {
    let config = Config {
        developer: true,
        modules: Modules {
            wallpaper: "/bin/wallpaper".to_string(),
            window_manager: "/bin/wm".to_string(),
            panel: "/bin/panel".to_string(),
            cursor: "/bin/cursor".to_string(),
        },
    };
    assert_eq!(config.modules.launch_order(), vec!["/bin/wallpaper", "/bin/wm", "/bin/cursor", "/bin/panel"]);
    assert!(config.developer);
}
