use vstd::prelude::*;
use crate::text::{chars_eq, chars_of, chars_start_with, lines_of, split_chars, split_on, starts_with, text_lines, trim, trim_chars, views};

verus! {

/// A line of the desktop configuration that sets the developer flag: once
/// trimmed, it begins with `developer`.
pub open spec fn is_developer_line(line: Seq<char>) -> bool {
    starts_with(trim(line), "developer"@)
}

/// The line's value, between its first `=` and the next one (or the end),
/// is `true` once trimmed.
pub open spec fn says_true(line: Seq<char>) -> bool {
    let parts = split_on(line, '=');
    parts.len() >= 2 && trim(parts[1]) == "true"@
}

/// The developer flag of a configuration text split into lines: set by the
/// first developer line, and off when there is none.
pub open spec fn developer_setting(lines: Seq<Seq<char>>) -> bool
    decreases lines.len(),
{
    if lines.len() == 0 {
        false
    } else if is_developer_line(lines[0]) {
        says_true(lines[0])
    } else {
        developer_setting(lines.drop_first())
    }
}

/// A configuration with no developer line leaves developer mode off.
pub proof fn law_no_developer_line_means_off(lines: Seq<Seq<char>>)
    requires
        forall|i: int| 0 <= i < lines.len() ==> !is_developer_line(#[trigger] lines[i]),
    ensures
        !developer_setting(lines),
    decreases lines.len(),
{
    if lines.len() > 0 {
        assert(!is_developer_line(lines[0]));
        assert forall|i: int| 0 <= i < lines.drop_first().len() implies !is_developer_line(#[trigger] lines.drop_first()[i]) by {
            assert(lines.drop_first()[i] == lines[i + 1]);
        }
        law_no_developer_line_means_off(lines.drop_first());
    }
}

/// Only the first developer line counts: the flag is what that line says,
/// whatever later lines say.
pub proof fn law_first_developer_line_decides(lines: Seq<Seq<char>>, k: int)
    requires
        0 <= k < lines.len(),
        is_developer_line(lines[k]),
        forall|i: int| 0 <= i < k ==> !is_developer_line(#[trigger] lines[i]),
    ensures
        developer_setting(lines) == says_true(lines[k]),
    decreases k,
{
    if k > 0 {
        assert(!is_developer_line(lines[0]));
        assert forall|i: int| 0 <= i < k - 1 implies !is_developer_line(#[trigger] lines.drop_first()[i]) by {
            assert(lines.drop_first()[i] == lines[i + 1]);
        }
        law_first_developer_line_decides(lines.drop_first(), k - 1);
    }
}

/// What the window manager reads from the desktop configuration.
#[derive(Debug, Clone, Copy)]
pub struct Configs {
    pub developer: bool,
}

impl Configs {
    /// The settings in the configuration text `text` (empty when the file
    /// could not be read).
    pub fn from_text(text: &str) -> (c: Configs)
        ensures
            c.developer == developer_setting(text_lines(text@)),
    {
        let lines = lines_of(text);
        let key = chars_of("developer");
        let yes = chars_of("true");
        let ghost all = views(lines@);
        let mut i: usize = 0;
        assert(all.skip(0) =~= all);
        while i < lines.len()
            invariant
                i <= lines.len(),
                all == views(lines@),
                all == text_lines(text@),
                key@ == "developer"@,
                yes@ == "true"@,
                developer_setting(all) == developer_setting(all.skip(i as int)),
            decreases lines.len() - i,
        {
            let line = &lines[i];
            assert(line@ == all[i as int]);
            assert(all.skip(i as int)[0] == all[i as int]);
            let trimmed = trim_chars(line.as_slice());
            if chars_start_with(trimmed.as_slice(), key.as_slice()) {
                let parts = split_chars(line.as_slice(), '=');
                assert(views(parts@).len() == parts@.len());
                if parts.len() < 2 {
                    return Configs { developer: false };
                }
                let value = trim_chars(parts[1].as_slice());
                assert(parts@[1]@ == split_on(line@, '=')[1]);
                return Configs { developer: chars_eq(value.as_slice(), yes.as_slice()) };
            }
            assert(all.skip(i as int).drop_first() =~= all.skip(i as int + 1));
            i = i + 1;
        }
        Configs { developer: false }
    }
}

/// The programs that make up the desktop.
#[derive(Debug, Clone)]
pub struct Modules {
    pub wallpaper: String,
    pub window_manager: String,
    pub panel: String,
    pub cursor: String,
}

/// The desktop configuration that the session starter reads.
#[derive(Debug, Clone)]
pub struct Config {
    pub developer: bool,
    pub modules: Modules,
}

impl Modules {
    /// The programs in the order the desktop starts them: wallpaper, window
    /// manager, cursor, then panel.
    pub fn launch_order(&self) -> (paths: Vec<&str>)
        ensures
            paths@.map_values(|p: &str| p@) == seq![self.wallpaper@, self.window_manager@, self.cursor@, self.panel@],
    {
        let mut paths: Vec<&str> = Vec::new();
        paths.push(self.wallpaper.as_str());
        paths.push(self.window_manager.as_str());
        paths.push(self.cursor.as_str());
        paths.push(self.panel.as_str());
        assert(paths@.map_values(|p: &str| p@) =~= seq![self.wallpaper@, self.window_manager@, self.cursor@, self.panel@]);
        paths
    }
}

} // verus!
