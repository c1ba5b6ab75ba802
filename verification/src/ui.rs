use vstd::prelude::*;
use crate::text::{chars_of, push_char, str_eq};

verus! {

broadcast use vstd::string::group_string_axioms;

/// The entries of a hub message's payload that the UI service reads: each is
/// `None` when the payload lacks it or holds something of another kind there.
#[derive(Debug, Clone)]
pub struct PayloadFields {
    pub id: Option<u64>,
    pub title: Option<String>,
    pub theme: Option<String>,
}

/// A message that the web view sends: the action it reports, and the
/// distance of a move or resize (0 when not given).
#[derive(Debug, Clone)]
pub struct UiMessage {
    pub action: String,
    pub dx: i32,
    pub dy: i32,
}

/// What the UI service does for a hub message.
#[derive(Debug, Clone)]
pub enum UiCommand {
    WindowOpened { id: u32, title: String },
    WindowClosed { id: u32 },
    WindowFocused { id: u32 },
    ThemeChanged { theme: String },
    Exit,
}

/// The window id of a payload: its `id` truncated to 32 bits, 0 when absent.
pub open spec fn payload_id(f: PayloadFields) -> u32 {
    match f.id {
        Some(v) => v as u32,
        None => 0,
    }
}

/// The command a hub message on `topic` with payload `f` carries, if any.
pub open spec fn command_spec(topic: Seq<char>, f: PayloadFields, c: Option<UiCommand>) -> bool {
    if topic == "system.exit"@ {
        c == Some(UiCommand::Exit)
    } else if topic == "window.opened"@ {
        c matches Some(UiCommand::WindowOpened { id, title }) && id == payload_id(f) && title@ == (match f.title {
            Some(t) => t@,
            None => "Window"@,
        })
    } else if topic == "window.closed"@ {
        c == Some(UiCommand::WindowClosed { id: payload_id(f) })
    } else if topic == "window.focused"@ {
        c == Some(UiCommand::WindowFocused { id: payload_id(f) })
    } else if topic == "theme.change"@ {
        c matches Some(UiCommand::ThemeChanged { theme }) && theme@ == (match f.theme {
            Some(t) => t@,
            None => "dark"@,
        })
    } else {
        c is None
    }
}

fn id_of(f: &PayloadFields) -> (id: u32)
    ensures
        id == payload_id(*f),
{
    match f.id {
        Some(v) => v as u32,
        None => 0,
    }
}

/// The command for a hub message on `topic` whose payload holds `f`.
pub fn command_for(topic: &str, f: PayloadFields) -> (c: Option<UiCommand>)
    ensures
        command_spec(topic@, f, c),
{
    if str_eq(topic, "system.exit") {
        Some(UiCommand::Exit)
    } else if str_eq(topic, "window.opened") {
        let id = id_of(&f);
        let title = match f.title {
            Some(t) => t,
            None => "Window".to_owned(),
        };
        Some(UiCommand::WindowOpened { id, title })
    } else if str_eq(topic, "window.closed") {
        Some(UiCommand::WindowClosed { id: id_of(&f) })
    } else if str_eq(topic, "window.focused") {
        Some(UiCommand::WindowFocused { id: id_of(&f) })
    } else if str_eq(topic, "theme.change") {
        let theme = match f.theme {
            Some(t) => t,
            None => "dark".to_owned(),
        };
        Some(UiCommand::ThemeChanged { theme })
    } else {
        None
    }
}

/// A theme change takes the payload's theme as it is, and falls back to
/// `dark` only when the payload names none.
pub proof fn law_theme_change_uses_payload_theme(f: PayloadFields, c: Option<UiCommand>)
    requires
        command_spec("theme.change"@, f, c),
    ensures
        f.theme matches Some(t) ==> (c matches Some(UiCommand::ThemeChanged { theme }) && theme@ == t@),
        f.theme is None ==> (c matches Some(UiCommand::ThemeChanged { theme }) && theme@ == seq!['d', 'a', 'r', 'k']),
{
    reveal_strlit("theme.change");
    reveal_strlit("system.exit");
    reveal_strlit("window.opened");
    reveal_strlit("window.closed");
    reveal_strlit("window.focused");
    reveal_strlit("dark");
    assert("theme.change"@.len() == 12);
    assert("theme.change"@ != "system.exit"@);
    assert("theme.change"@ != "window.opened"@);
    assert("theme.change"@ != "window.closed"@);
    assert("theme.change"@ != "window.focused"@);
}

/// Window messages carry the payload's entries: an opened window gets the
/// payload's title (`Window` only when there is none), and each window
/// message the payload's id, cast to 32 bits (0 only when there is none).
pub proof fn law_window_commands_use_payload(f: PayloadFields, c_open: Option<UiCommand>, c_close: Option<UiCommand>, c_focus: Option<UiCommand>)
    requires
        command_spec("window.opened"@, f, c_open),
        command_spec("window.closed"@, f, c_close),
        command_spec("window.focused"@, f, c_focus),
    ensures
        c_open matches Some(UiCommand::WindowOpened { id, title }) && (f.title matches Some(t) ==> title@ == t@),
        f.title is None ==> (c_open matches Some(UiCommand::WindowOpened { title, .. }) && title@ == seq!['W', 'i', 'n', 'd', 'o', 'w']),
        f.id matches Some(v) ==> (c_open matches Some(UiCommand::WindowOpened { id, .. }) && id == v as u32),
        f.id matches Some(v) ==> c_close == Some(UiCommand::WindowClosed { id: v as u32 }),
        f.id matches Some(v) ==> c_focus == Some(UiCommand::WindowFocused { id: v as u32 }),
        f.id is None ==> c_close == Some(UiCommand::WindowClosed { id: 0 }) && c_focus == Some(UiCommand::WindowFocused { id: 0 }),
{
    reveal_strlit("system.exit");
    reveal_strlit("window.opened");
    reveal_strlit("window.closed");
    reveal_strlit("window.focused");
    reveal_strlit("Window");
    assert("window.opened"@.len() == 13 && "window.closed"@.len() == 13);
    assert("system.exit"@.len() == 11 && "window.focused"@.len() == 14);
    assert("window.opened"@[7] != "window.closed"@[7]);
    assert("window.opened"@ != "system.exit"@);
    assert("window.closed"@ != "system.exit"@);
    assert("window.closed"@ != "window.opened"@);
    assert("window.focused"@ != "system.exit"@);
    assert("window.focused"@ != "window.opened"@);
    assert("window.focused"@ != "window.closed"@);
}

/// `s` with a backslash put before each single quote.
pub open spec fn escape_quotes(s: Seq<char>) -> Seq<char>
    decreases s.len(),
{
    if s.len() == 0 {
        Seq::<char>::empty()
    } else if s.last() == '\'' {
        escape_quotes(s.drop_last()) + seq!['\\', '\'']
    } else {
        escape_quotes(s.drop_last()).push(s.last())
    }
}

/// `e` with the backslash taken out of each backslash-quote pair, read from
/// the end: the inverse of putting a backslash before each quote.
pub open spec fn unescape_quotes(e: Seq<char>) -> Seq<char>
    decreases e.len(),
{
    if e.len() == 0 {
        Seq::<char>::empty()
    } else if e.len() >= 2 && e.last() == '\'' && e[e.len() - 2] == '\\' {
        unescape_quotes(e.take(e.len() - 2)).push('\'')
    } else {
        unescape_quotes(e.drop_last()).push(e.last())
    }
}

/// Escaping only inserts backslashes: taking them out again gives back the
/// text unchanged, every character in its place.
pub proof fn law_unescape_gives_back(s: Seq<char>)
    ensures
        unescape_quotes(escape_quotes(s)) == s,
    decreases s.len(),
{
    if s.len() > 0 {
        law_unescape_gives_back(s.drop_last());
        let prev = escape_quotes(s.drop_last());
        let e = escape_quotes(s);
        if s.last() == '\'' {
            assert(e.take(e.len() - 2) =~= prev);
        } else {
            assert(e.drop_last() =~= prev);
        }
        assert(s.drop_last().push(s.last()) =~= s);
    }
}

/// The script that shows a title holds the title, quotes escaped, between
/// the fixed opening and closing text; unescaping that part gives back the
/// title.
pub proof fn law_title_script_holds_title(title: Seq<char>)
    ensures
        exists|e: Seq<char>|
            title_script(title) == "handleWMMessage({type: 'set_title', title: '"@ + e + "'})"@
                && #[trigger] unescape_quotes(e) == title,
{
    law_unescape_gives_back(title);
    assert(unescape_quotes(escape_quotes(title)) == title);
}

/// After escaping, every single quote is preceded by a backslash, so a
/// title cannot end the quoted string it is put into.
pub proof fn law_escaped_quotes(s: Seq<char>)
    ensures
        forall|i: int| 0 <= i < escape_quotes(s).len() && #[trigger] escape_quotes(s)[i] == '\'' ==> i > 0 && escape_quotes(s)[i - 1] == '\\',
    decreases s.len(),
{
    if s.len() > 0 {
        law_escaped_quotes(s.drop_last());
        let prev = escape_quotes(s.drop_last());
        let e = escape_quotes(s);
        assert forall|i: int| 0 <= i < e.len() && #[trigger] e[i] == '\'' implies i > 0 && e[i - 1] == '\\' by {
            if i < prev.len() {
                assert(e[i] == prev[i]);
                assert(e[i - 1] == prev[i - 1]);
            }
        }
    }
}

/// Appends `s` to `out` with each single quote escaped.
fn push_escaped(out: &mut String, s: &str)
    ensures
        final(out)@ == old(out)@ + escape_quotes(s@),
{
    let cs = chars_of(s);
    let mut i: usize = 0;
    assert(cs@.take(0) =~= Seq::<char>::empty());
    assert(out@ =~= old(out)@ + escape_quotes(cs@.take(0)));
    while i < cs.len()
        invariant
            i <= cs@.len(),
            cs@ == s@,
            out@ == old(out)@ + escape_quotes(cs@.take(i as int)),
        decreases cs.len() - i,
    {
        let c = cs[i];
        assert(cs@.take(i as int + 1).drop_last() =~= cs@.take(i as int));
        assert(cs@.take(i as int + 1).last() == c);
        if c == '\'' {
            push_char(out, '\\');
            push_char(out, '\'');
            assert(out@ =~= old(out)@ + escape_quotes(cs@.take(i as int + 1)));
        } else {
            push_char(out, c);
            assert(out@ =~= old(out)@ + escape_quotes(cs@.take(i as int + 1)));
        }
        i = i + 1;
    }
    assert(cs@.take(cs@.len() as int) =~= cs@);
}

/// What the UI service does with a command.
#[derive(Debug, Clone)]
pub enum UiReaction {
    /// Close the UI.
    Quit,
    /// Run this script in the web view.
    RunScript(String),
    Nothing,
}

/// The script that shows a window's title in the web view.
pub open spec fn title_script(title: Seq<char>) -> Seq<char> {
    "handleWMMessage({type: 'set_title', title: '"@ + escape_quotes(title) + "'})"@
}

/// The script that shows the focus in the web view.
pub open spec fn focus_script() -> Seq<char> {
    "handleWMMessage({type: 'set_focus', focused: true})"@
}

/// The script that switches the web view's theme (the name goes in as it is).
pub open spec fn theme_script(theme: Seq<char>) -> Seq<char> {
    "handleWMMessage({type: 'set_theme', theme: '"@ + theme + "'})"@
}

/// The UI service's answer to a command.
pub fn react(cmd: &UiCommand) -> (r: UiReaction)
    ensures
        match *cmd {
            UiCommand::Exit => r is Quit,
            UiCommand::WindowOpened { title, .. } => r matches UiReaction::RunScript(js) && js@ == title_script(title@),
            UiCommand::WindowFocused { .. } => r matches UiReaction::RunScript(js) && js@ == focus_script(),
            UiCommand::ThemeChanged { theme } => r matches UiReaction::RunScript(js) && js@ == theme_script(theme@),
            UiCommand::WindowClosed { .. } => r is Nothing,
        },
{
    match cmd {
        UiCommand::Exit => UiReaction::Quit,
        UiCommand::WindowOpened { title, .. } => {
            let mut js = "handleWMMessage({type: 'set_title', title: '".to_owned();
            push_escaped(&mut js, title.as_str());
            js.append("'})");
            UiReaction::RunScript(js)
        },
        UiCommand::WindowFocused { .. } => UiReaction::RunScript("handleWMMessage({type: 'set_focus', focused: true})".to_owned()),
        UiCommand::ThemeChanged { theme } => {
            let mut js = "handleWMMessage({type: 'set_theme', theme: '".to_owned();
            js.append(theme.as_str());
            js.append("'})");
            UiReaction::RunScript(js)
        },
        UiCommand::WindowClosed { .. } => UiReaction::Nothing,
    }
}

/// The hub topic for an action that the web view reports: the window
/// requests `close`, `minimize`, `maximize`, `move`, `resize` and `drag_end`
/// each have one, other actions none.
pub open spec fn action_topic_spec(action: Seq<char>) -> Option<Seq<char>> {
    if action == "close"@ {
        Some("window.close_request"@)
    } else if action == "minimize"@ {
        Some("window.minimize_request"@)
    } else if action == "maximize"@ {
        Some("window.maximize_request"@)
    } else if action == "move"@ {
        Some("window.move_request"@)
    } else if action == "resize"@ {
        Some("window.resize_request"@)
    } else if action == "drag_end"@ {
        Some("window.drag_end"@)
    } else {
        None
    }
}

pub fn action_topic(action: &str) -> (topic: Option<String>)
    ensures
        match topic {
            Some(t) => action_topic_spec(action@) == Some(t@),
            None => action_topic_spec(action@) is None,
        },
{
    if str_eq(action, "close") {
        Some("window.close_request".to_owned())
    } else if str_eq(action, "minimize") {
        Some("window.minimize_request".to_owned())
    } else if str_eq(action, "maximize") {
        Some("window.maximize_request".to_owned())
    } else if str_eq(action, "move") {
        Some("window.move_request".to_owned())
    } else if str_eq(action, "resize") {
        Some("window.resize_request".to_owned())
    } else if str_eq(action, "drag_end") {
        Some("window.drag_end".to_owned())
    } else {
        None
    }
}

} // verus!
