use vstd::prelude::*;
use crate::text::chars_of;

verus! {

/// The value of a hexadecimal digit (either case), if `c` is one.
pub open spec fn hex_digit_value(c: char) -> Option<nat> {
    if '0' <= c && c <= '9' {
        Some((c as int - '0' as int) as nat)
    } else if 'a' <= c && c <= 'f' {
        Some((c as int - 'a' as int + 10) as nat)
    } else if 'A' <= c && c <= 'F' {
        Some((c as int - 'A' as int + 10) as nat)
    } else {
        None
    }
}

/// The number that the hexadecimal digits `s` denote (0 for no digits), or
/// `None` when some character is not a hexadecimal digit.
pub open spec fn hex_value(s: Seq<char>) -> Option<nat>
    decreases s.len(),
{
    if s.len() == 0 {
        Some(0)
    } else {
        match (hex_value(s.drop_last()), hex_digit_value(s.last())) {
            (Some(v), Some(d)) => Some(v * 16 + d),
            _ => None,
        }
    }
}

/// `s` without its leading `#` characters.
pub open spec fn strip_hashes(s: Seq<char>) -> Seq<char>
    decreases s.len(),
{
    if s.len() > 0 && s[0] == '#' {
        strip_hashes(s.drop_first())
    } else {
        s
    }
}

/// What std's base-16 parse of a `u32` gives for `s`: an optional leading
/// `+`, then at least one hexadecimal digit, with a value that fits.
pub open spec fn parse_hex_u32(s: Seq<char>) -> Option<u32> {
    let digits = if s.len() > 0 && s[0] == '+' { s.drop_first() } else { s };
    if digits.len() == 0 {
        None
    } else {
        match hex_value(digits) {
            Some(v) => if v <= u32::MAX { Some(v as u32) } else { None },
            None => None,
        }
    }
}

/// The color that a theme string such as `#2d5da1` denotes; black (0) when
/// it is not a valid hexadecimal color.
pub open spec fn color_value(s: Seq<char>) -> u32 {
    match parse_hex_u32(strip_hashes(s)) {
        Some(v) => v,
        None => 0,
    }
}

/// Every prefix of valid hexadecimal digits is valid and denotes at most
/// the value of the whole.
proof fn lemma_hex_prefix(s: Seq<char>, i: int)
    requires
        0 <= i <= s.len(),
        hex_value(s) is Some,
    ensures
        hex_value(s.take(i)) is Some,
        hex_value(s.take(i))->0 <= hex_value(s)->0,
    decreases s.len(),
{
    if i == s.len() {
        assert(s.take(i) =~= s);
    } else {
        lemma_hex_prefix(s.drop_last(), i);
        assert(s.drop_last().take(i) =~= s.take(i));
    }
}

proof fn lemma_strip_step(s: Seq<char>, i: int)
    requires
        0 <= i < s.len(),
        s[i] == '#',
    ensures
        strip_hashes(s.skip(i)) == strip_hashes(s.skip(i + 1)),
{
    assert(s.skip(i).drop_first() =~= s.skip(i + 1));
}

/// The value of one hexadecimal digit.
fn hex_digit(c: char) -> (d: Option<u32>)
    ensures
        match hex_digit_value(c) {
            Some(v) => d == Some(v as u32),
            None => d is None,
        },
{
    if '0' <= c && c <= '9' {
        Some((c as u32) - ('0' as u32))
    } else if 'a' <= c && c <= 'f' {
        Some((c as u32) - ('a' as u32) + 10)
    } else if 'A' <= c && c <= 'F' {
        Some((c as u32) - ('A' as u32) + 10)
    } else {
        None
    }
}

/// Parses a theme color string.
pub fn color_from_str(hex: &str) -> (v: u32)
    ensures
        v == color_value(hex@),
{
    let cs = chars_of(hex);
    let n = cs.len();
    let mut start: usize = 0;
    assert(cs@.skip(0) =~= cs@);
    while start < n && cs[start] == '#'
        invariant
            start <= n,
            n == cs@.len(),
            cs@ == hex@,
            strip_hashes(cs@.skip(start as int)) == strip_hashes(cs@),
        decreases n - start,
    {
        proof {
            lemma_strip_step(cs@, start as int);
        }
        start = start + 1;
    }
    let ghost stripped = cs@.skip(start as int);
    assert(strip_hashes(stripped) == stripped);
    assert(strip_hashes(cs@) == stripped);
    let mut first: usize = start;
    if first < n && cs[first] == '+' {
        first = first + 1;
    }
    let ghost digits = cs@.subrange(first as int, n as int);
    assert(digits =~= (if stripped.len() > 0 && stripped[0] == '+' { stripped.drop_first() } else { stripped }));
    if first == n {
        return 0;
    }
    assert(digits.len() > 0);
    assert(digits.take(0) =~= Seq::<char>::empty());
    let mut acc: u64 = 0;
    let mut i: usize = first;
    while i < n
        invariant
            first <= i <= n,
            n == cs@.len(),
            digits == cs@.subrange(first as int, n as int),
            acc <= u32::MAX,
            hex_value(digits.take(i - first)) == Some(acc as nat),
            color_value(hex@) == (match hex_value(digits) {
                Some(v) => if v <= u32::MAX { v as u32 } else { 0 },
                None => 0,
            }),
        decreases n - i,
    {
        let k = i - first;
        assert(digits.take(k + 1).drop_last() =~= digits.take(k as int));
        assert(digits.take(k + 1).last() == cs@[i as int]);
        match hex_digit(cs[i]) {
            None => {
                proof {
                    if hex_value(digits) is Some {
                        lemma_hex_prefix(digits, k + 1);
                    }
                }
                return 0;
            },
            Some(d) => {
                let next: u64 = acc * 16 + d as u64;
                if next > u32::MAX as u64 {
                    proof {
                        if hex_value(digits) is Some {
                            lemma_hex_prefix(digits, k + 1);
                        }
                    }
                    return 0;
                }
                acc = next;
            },
        }
        i = i + 1;
    }
    assert(digits.take(n - first) =~= digits);
    acc as u32
}

/// Colors and sizes of window decorations.
#[derive(Debug, Clone)]
pub struct Theme {
    pub titlebar_height: u16,
    pub titlebar_bg: String,
    pub titlebar_inactive_bg: String,
    pub titlebar_text: String,
    pub btn_close_color: String,
    pub btn_min_color: String,
    pub btn_max_color: String,
    pub btn_size: u16,
    pub btn_padding: u16,
}

/// The `[theme]` section of the desktop configuration as it was read: each
/// entry that the section gives, and `None` for each that it leaves out.
#[derive(Debug, Clone)]
pub struct ThemeFields {
    pub titlebar_height: Option<u16>,
    pub titlebar_bg: Option<String>,
    pub titlebar_inactive_bg: Option<String>,
    pub titlebar_text: Option<String>,
    pub btn_close_color: Option<String>,
    pub btn_min_color: Option<String>,
    pub btn_max_color: Option<String>,
    pub btn_size: Option<u16>,
    pub btn_padding: Option<u16>,
}

pub fn default_height() -> (h: u16)
    ensures
        h == 30,
{
    30
}

pub fn default_bg() -> (s: String)
    ensures
        s@ == "#2d5da1"@,
{
    "#2d5da1".to_owned()
}

pub fn default_inactive() -> (s: String)
    ensures
        s@ == "#555555"@,
{
    "#555555".to_owned()
}

pub fn default_text() -> (s: String)
    ensures
        s@ == "#ffffff"@,
{
    "#ffffff".to_owned()
}

pub fn default_close() -> (s: String)
    ensures
        s@ == "#ff5f57"@,
{
    "#ff5f57".to_owned()
}

pub fn default_min() -> (s: String)
    ensures
        s@ == "#ffbd2e"@,
{
    "#ffbd2e".to_owned()
}

pub fn default_max() -> (s: String)
    ensures
        s@ == "#28c840"@,
{
    "#28c840".to_owned()
}

pub fn default_btn_size() -> (n: u16)
    ensures
        n == 16,
{
    16
}

pub fn default_padding() -> (n: u16)
    ensures
        n == 8,
{
    8
}

/// `v` when the section gives it, else `d`.
pub open spec fn or_default<T>(v: Option<T>, d: T) -> T {
    match v {
        Some(x) => x,
        None => d,
    }
}

/// A text entry of the theme: what the section gives, else `default`.
pub open spec fn text_entry(actual: String, given: Option<String>, default: Seq<char>) -> bool {
    match given {
        Some(v) => actual@ == v@,
        None => actual@ == default,
    }
}

/// Every entry that the `[theme]` section gives is taken as it is, and each
/// entry it leaves out takes the documented default.
pub proof fn law_section_entries_are_kept(f: ThemeFields, t: Theme)
    requires
        t.from_fields_spec(f),
    ensures
        f.titlebar_height matches Some(v) ==> t.titlebar_height == v,
        f.titlebar_bg matches Some(v) ==> t.titlebar_bg@ == v@,
        f.titlebar_inactive_bg matches Some(v) ==> t.titlebar_inactive_bg@ == v@,
        f.titlebar_text matches Some(v) ==> t.titlebar_text@ == v@,
        f.btn_close_color matches Some(v) ==> t.btn_close_color@ == v@,
        f.btn_min_color matches Some(v) ==> t.btn_min_color@ == v@,
        f.btn_max_color matches Some(v) ==> t.btn_max_color@ == v@,
        f.btn_size matches Some(v) ==> t.btn_size == v,
        f.btn_padding matches Some(v) ==> t.btn_padding == v,
        f.titlebar_height is None ==> t.titlebar_height == 30,
        f.titlebar_bg is None ==> t.titlebar_bg@ == "#2d5da1"@,
        f.titlebar_inactive_bg is None ==> t.titlebar_inactive_bg@ == "#555555"@,
        f.titlebar_text is None ==> t.titlebar_text@ == "#ffffff"@,
        f.btn_close_color is None ==> t.btn_close_color@ == "#ff5f57"@,
        f.btn_min_color is None ==> t.btn_min_color@ == "#ffbd2e"@,
        f.btn_max_color is None ==> t.btn_max_color@ == "#28c840"@,
        f.btn_size is None ==> t.btn_size == 16,
        f.btn_padding is None ==> t.btn_padding == 8,
{
}

/// The colors a loaded theme draws with are those of the section's entries:
/// a section that gives `titlebar_bg` gets its title bars in that color.
pub proof fn law_section_colors_are_used(f: ThemeFields, t: Theme)
    requires
        t.from_fields_spec(f),
    ensures
        f.titlebar_bg matches Some(v) ==> color_value(t.titlebar_bg@) == color_value(v@),
        f.titlebar_inactive_bg matches Some(v) ==> color_value(t.titlebar_inactive_bg@) == color_value(v@),
        f.titlebar_text matches Some(v) ==> color_value(t.titlebar_text@) == color_value(v@),
        f.btn_close_color matches Some(v) ==> color_value(t.btn_close_color@) == color_value(v@),
        f.btn_min_color matches Some(v) ==> color_value(t.btn_min_color@) == color_value(v@),
        f.btn_max_color matches Some(v) ==> color_value(t.btn_max_color@) == color_value(v@),
{
}

/// Leading `#` characters do not change the color a string denotes.
pub proof fn law_color_ignores_leading_hash(s: Seq<char>)
    ensures
        color_value(seq!['#'] + s) == color_value(s),
{
    assert((seq!['#'] + s).drop_first() =~= s);
}

impl Theme {
    /// The theme used when the configuration gives none.
    pub open spec fn is_default(self) -> bool {
        &&& self.titlebar_height == 30
        &&& self.titlebar_bg@ == "#2d5da1"@
        &&& self.titlebar_inactive_bg@ == "#555555"@
        &&& self.titlebar_text@ == "#ffffff"@
        &&& self.btn_close_color@ == "#ff5f57"@
        &&& self.btn_min_color@ == "#ffbd2e"@
        &&& self.btn_max_color@ == "#28c840"@
        &&& self.btn_size == 16
        &&& self.btn_padding == 8
    }

    /// The theme that a read `[theme]` section describes: each entry it
    /// leaves out takes its default.
    pub open spec fn from_fields_spec(self, f: ThemeFields) -> bool {
        &&& self.titlebar_height == or_default(f.titlebar_height, 30)
        &&& text_entry(self.titlebar_bg, f.titlebar_bg, "#2d5da1"@)
        &&& text_entry(self.titlebar_inactive_bg, f.titlebar_inactive_bg, "#555555"@)
        &&& text_entry(self.titlebar_text, f.titlebar_text, "#ffffff"@)
        &&& text_entry(self.btn_close_color, f.btn_close_color, "#ff5f57"@)
        &&& text_entry(self.btn_min_color, f.btn_min_color, "#ffbd2e"@)
        &&& text_entry(self.btn_max_color, f.btn_max_color, "#28c840"@)
        &&& self.btn_size == or_default(f.btn_size, 16)
        &&& self.btn_padding == or_default(f.btn_padding, 8)
    }

    /// The theme from the `[theme]` section of the configuration: the default
    /// theme when the file, the section or one of its entries could not be
    /// read (`None`), else the section with defaults for what it leaves out.
    pub fn from_section(section: Option<ThemeFields>) -> (t: Theme)
        ensures
            match section {
                Some(f) => t.from_fields_spec(f),
                None => t.is_default(),
            },
    {
        match section {
            Some(f) => Theme::from_fields(f),
            None => Theme::default(),
        }
    }

    /// The theme that a read `[theme]` section describes.
    pub fn from_fields(f: ThemeFields) -> (t: Theme)
        ensures
            t.from_fields_spec(f),
    {
        let titlebar_height = match f.titlebar_height { Some(v) => v, None => default_height() };
        let titlebar_bg = match f.titlebar_bg { Some(v) => v, None => default_bg() };
        let titlebar_inactive_bg = match f.titlebar_inactive_bg { Some(v) => v, None => default_inactive() };
        let titlebar_text = match f.titlebar_text { Some(v) => v, None => default_text() };
        let btn_close_color = match f.btn_close_color { Some(v) => v, None => default_close() };
        let btn_min_color = match f.btn_min_color { Some(v) => v, None => default_min() };
        let btn_max_color = match f.btn_max_color { Some(v) => v, None => default_max() };
        let btn_size = match f.btn_size { Some(v) => v, None => default_btn_size() };
        let btn_padding = match f.btn_padding { Some(v) => v, None => default_padding() };
        Theme {
            titlebar_height,
            titlebar_bg,
            titlebar_inactive_bg,
            titlebar_text,
            btn_close_color,
            btn_min_color,
            btn_max_color,
            btn_size,
            btn_padding,
        }
    }

    /// The color that `hex` denotes, such as 0x2d5da1 for `#2d5da1`; leading
    /// `#` characters are skipped, and anything that is not a hexadecimal
    /// number that fits in 32 bits gives black (0).
    pub fn parse_color(&self, hex: &str) -> (v: u32)
        ensures
            v == color_value(hex@),
    {
        color_from_str(hex)
    }

    pub fn titlebar_bg(&self) -> (v: u32)
        ensures
            v == color_value(self.titlebar_bg@),
    {
        self.parse_color(self.titlebar_bg.as_str())
    }

    pub fn titlebar_inactive_bg(&self) -> (v: u32)
        ensures
            v == color_value(self.titlebar_inactive_bg@),
    {
        self.parse_color(self.titlebar_inactive_bg.as_str())
    }

    pub fn titlebar_text(&self) -> (v: u32)
        ensures
            v == color_value(self.titlebar_text@),
    {
        self.parse_color(self.titlebar_text.as_str())
    }

    pub fn btn_close(&self) -> (v: u32)
        ensures
            v == color_value(self.btn_close_color@),
    {
        self.parse_color(self.btn_close_color.as_str())
    }

    pub fn btn_min(&self) -> (v: u32)
        ensures
            v == color_value(self.btn_min_color@),
    {
        self.parse_color(self.btn_min_color.as_str())
    }

    pub fn btn_max(&self) -> (v: u32)
        ensures
            v == color_value(self.btn_max_color@),
    {
        self.parse_color(self.btn_max_color.as_str())
    }
}

impl Default for Theme {
    fn default() -> (t: Theme)
        ensures
            t.is_default(),
    {
        Theme {
            titlebar_height: default_height(),
            titlebar_bg: default_bg(),
            titlebar_inactive_bg: default_inactive(),
            titlebar_text: default_text(),
            btn_close_color: default_close(),
            btn_min_color: default_min(),
            btn_max_color: default_max(),
            btn_size: default_btn_size(),
            btn_padding: default_padding(),
        }
    }
}

} // verus!
