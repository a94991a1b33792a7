//! Terminal presentation: icons for target kinds, colorized text and the
//! status lines the commands print.

use std::io::Write;
use crossterm::style::Stylize;
use vstd::prelude::*;
use crate::fuga::{FileInfo, TargetType};
use crate::traits::UIService;

verus! {

/// What emoji the shortcode denotes, if any: the lookup is a fixed,
/// compiled-in table, so the result depends on the code alone.
pub uninterp spec fn emoji_for_shortcode(code: Seq<char>) -> Option<Seq<char>>;

/// Relies on emojis::get_by_shortcode: looks an emoji up by shortcode in
/// the crate's static table.
#[verifier::external_body]
fn lookup_emoji(code: &str) -> (r: Option<String>)
    ensures
        (r is Some) == (emoji_for_shortcode(code@) is Some),
        r matches Some(e) ==> emoji_for_shortcode(code@) == Some(e@),
{
    emojis::get_by_shortcode(code).map(|e| e.as_str().to_string())
}

/// Relies on crossterm's Stylize: wraps the text in bold green escape
/// codes. With colors disabled in the environment the codes are dropped,
/// so nothing is stated of the result.
#[verifier::external_body]
fn stylize_green_bold(text: &str) -> String {
    text.bold().with(crossterm::style::Color::Green).to_string()
}

/// Relies on crossterm's Stylize: wraps the text in green escape codes.
/// With colors disabled in the environment the codes are dropped, so
/// nothing is stated of the result.
#[verifier::external_body]
fn stylize_green(text: &str) -> String {
    text.with(crossterm::style::Color::Green).to_string()
}

/// Relies on std::io::stdout: prints one status line.
#[verifier::external_body]
pub(crate) fn emit_line(text: &str) {
    let mut out = std::io::stdout();
    let _ = writeln!(out, "{}", text);
}

/// One decimal digit as a character.
pub open spec fn spec_digit_char(d: int) -> char {
    if d == 0 {
        '0'
    } else if d == 1 {
        '1'
    } else if d == 2 {
        '2'
    } else if d == 3 {
        '3'
    } else if d == 4 {
        '4'
    } else if d == 5 {
        '5'
    } else if d == 6 {
        '6'
    } else if d == 7 {
        '7'
    } else if d == 8 {
        '8'
    } else {
        '9'
    }
}

/// The decimal digits of a number, most significant first.
pub open spec fn spec_decimal(n: int) -> Seq<char>
    decreases n,
{
    if n < 10 {
        seq![spec_digit_char(n)]
    } else {
        spec_decimal(n / 10).push(spec_digit_char(n % 10))
    }
}

fn digit_str(d: usize) -> (r: &'static str)
    requires
        d < 10,
    ensures
        r@ == seq![spec_digit_char(d as int)],
{
    match d {
        0 => {
            proof {
                reveal_strlit("0");
                assert("0"@ =~= seq!['0']);
            }
            "0"
        },
        1 => {
            proof {
                reveal_strlit("1");
                assert("1"@ =~= seq!['1']);
            }
            "1"
        },
        2 => {
            proof {
                reveal_strlit("2");
                assert("2"@ =~= seq!['2']);
            }
            "2"
        },
        3 => {
            proof {
                reveal_strlit("3");
                assert("3"@ =~= seq!['3']);
            }
            "3"
        },
        4 => {
            proof {
                reveal_strlit("4");
                assert("4"@ =~= seq!['4']);
            }
            "4"
        },
        5 => {
            proof {
                reveal_strlit("5");
                assert("5"@ =~= seq!['5']);
            }
            "5"
        },
        6 => {
            proof {
                reveal_strlit("6");
                assert("6"@ =~= seq!['6']);
            }
            "6"
        },
        7 => {
            proof {
                reveal_strlit("7");
                assert("7"@ =~= seq!['7']);
            }
            "7"
        },
        8 => {
            proof {
                reveal_strlit("8");
                assert("8"@ =~= seq!['8']);
            }
            "8"
        },
        _ => {
            proof {
                reveal_strlit("9");
                assert("9"@ =~= seq!['9']);
            }
            "9"
        },
    }
}

/// Render a count in decimal.
pub fn decimal_string(n: usize) -> (r: String)
    ensures
        r@ == spec_decimal(n as int),
    decreases n,
{
    if n < 10 {
        String::from_str(digit_str(n))
    } else {
        let mut s = decimal_string(n / 10);
        let ghost prefix = s@;
        s.append(digit_str(n % 10));
        proof {
            assert(s@ =~= prefix.push(spec_digit_char(n as int % 10)));
        }
        s
    }
}

/// Relies on String::push: appends one character.
#[verifier::external_body]
pub(crate) fn push_char(s: &mut String, c: char)
    ensures
        final(s)@ == old(s)@.push(c),
{
    s.push(c);
}

/// The string with its last character removed; the empty string stays
/// empty.
pub fn drop_last_char(s: &str) -> (r: String)
    ensures
        s@.len() == 0 ==> r@ == s@,
        s@.len() > 0 ==> r@ == s@.drop_last(),
{
    let len = s.unicode_len();
    if len == 0 {
        String::from_str(s)
    } else {
        let t = s.substring_char(0, len - 1);
        proof {
            assert(t@ =~= s@.drop_last());
        }
        String::from_str(t)
    }
}

/// Whether the character is ASCII whitespace.
pub fn is_space_c(c: char) -> (r: bool)
    ensures
        r == crate::config::is_space_char(c),
{
    let u = c as u32;
    u == 32 || u == 9 || u == 10 || u == 13 || u == 11 || u == 12
}

/// `s` without leading whitespace.
pub open spec fn spec_strip_leading_spaces(s: Seq<char>) -> Seq<char>
    decreases s.len(),
{
    if s.len() == 0 {
        s
    } else if crate::config::is_space_char(s.first()) {
        spec_strip_leading_spaces(s.drop_first())
    } else {
        s
    }
}

/// `s` without trailing whitespace.
pub open spec fn spec_strip_trailing_spaces(s: Seq<char>) -> Seq<char>
    decreases s.len(),
{
    if s.len() == 0 {
        s
    } else if crate::config::is_space_char(s.last()) {
        spec_strip_trailing_spaces(s.drop_last())
    } else {
        s
    }
}

/// `s` without leading and trailing whitespace.
pub open spec fn spec_trim(s: Seq<char>) -> Seq<char> {
    spec_strip_leading_spaces(spec_strip_trailing_spaces(s))
}

proof fn lemma_strip_trailing_take(s: Seq<char>, end: int)
    requires
        0 <= end < s.len(),
        crate::config::is_space_char(s[end]),
    ensures
        spec_strip_trailing_spaces(s.take(end + 1)) == spec_strip_trailing_spaces(s.take(end)),
{
    let t = s.take(end + 1);
    assert(t.last() == s[end]);
    assert(t.drop_last() =~= s.take(end));
}

proof fn lemma_strip_leading_skip(t: Seq<char>, start: int)
    requires
        0 <= start < t.len(),
        crate::config::is_space_char(t[start]),
    ensures
        spec_strip_leading_spaces(t.skip(start)) == spec_strip_leading_spaces(t.skip(start + 1)),
{
    let u = t.skip(start);
    assert(u.first() == t[start]);
    assert(u.drop_first() =~= t.skip(start + 1));
}

/// Trim whitespace from both ends.
pub fn trim_spaces(s: &str) -> (r: String)
    ensures
        r@ == spec_trim(s@),
{
    let len = s.unicode_len();
    proof {
        assert(s@.take(len as int) =~= s@);
    }
    let mut end: usize = len;
    while end > 0 && is_space_c(s.get_char(end - 1))
        invariant
            end <= len,
            len == s@.len(),
            spec_strip_trailing_spaces(s@) == spec_strip_trailing_spaces(s@.take(end as int)),
        decreases end,
    {
        proof {
            lemma_strip_trailing_take(s@, end - 1);
        }
        end = end - 1;
    }
    let ghost t = s@.take(end as int);
    proof {
        if end > 0 {
            assert(t.last() == s@[end - 1]);
        }
        assert(spec_strip_trailing_spaces(t) == t);
        assert(t.skip(0) =~= t);
    }
    let mut start: usize = 0;
    while start < end && is_space_c(s.get_char(start))
        invariant
            start <= end <= len,
            len == s@.len(),
            t == s@.take(end as int),
            spec_strip_leading_spaces(t) == spec_strip_leading_spaces(t.skip(start as int)),
        decreases end - start,
    {
        proof {
            assert(t[start as int] == s@[start as int]);
            lemma_strip_leading_skip(t, start as int);
        }
        start = start + 1;
    }
    proof {
        if start < end {
            assert(t.skip(start as int).first() == s@[start as int]);
            assert(spec_strip_leading_spaces(t.skip(start as int)) == t.skip(start as int));
        } else {
            assert(t.skip(end as int) =~= Seq::<char>::empty());
        }
        assert(t.skip(start as int) =~= s@.subrange(start as int, end as int));
    }
    let out = s.substring_char(start, end);
    String::from_str(out)
}

/// The icon for a target kind, with or without emoji.
pub open spec fn spec_icon_for(use_emoji: bool, t: TargetType) -> Seq<char> {
    match (use_emoji, t) {
        (true, TargetType::File) => "\u{1f4c4}"@,
        (true, TargetType::Dir) => "\u{1f4c1}"@,
        (true, TargetType::Missing) => "\u{274c}"@,
        (false, TargetType::File) => "[FILE]"@,
        (false, TargetType::Dir) => "[DIR]"@,
        (false, TargetType::Missing) => "[ERR]"@,
    }
}

/// The icon text for a target kind.
pub fn icon_for_target_type(use_emoji: bool, target_type: TargetType) -> (r: String)
    ensures
        r@ == spec_icon_for(use_emoji, target_type),
{
    match (use_emoji, target_type) {
        (true, TargetType::File) => String::from_str("\u{1f4c4}"),
        (true, TargetType::Dir) => String::from_str("\u{1f4c1}"),
        (true, TargetType::Missing) => String::from_str("\u{274c}"),
        (false, TargetType::File) => String::from_str("[FILE]"),
        (false, TargetType::Dir) => String::from_str("[DIR]"),
        (false, TargetType::Missing) => String::from_str("[ERR]"),
    }
}

/// The emoji icon for a path's captured information: a page for a file, a
/// folder for a directory, a cross for a missing path.
pub fn get_icon(info: &FileInfo) -> (r: String)
    ensures
        r@ == spec_icon_for(true, crate::fuga::spec_file_type(*info)),
{
    let t = crate::fuga::get_file_type(info);
    icon_for_target_type(true, t)
}

/// Terminal presentation with a switchable emoji mode.
#[derive(Debug)]
pub struct TerminalUIService {
    pub use_emoji: bool,
}

impl TerminalUIService {
    /// A service that uses emoji icons or their plain-text stand-ins.
    pub fn with_emoji(use_emoji: bool) -> (r: Self)
        ensures
            r.use_emoji == use_emoji,
    {
        TerminalUIService { use_emoji }
    }
}

impl UIService for TerminalUIService {
    fn get_colorized_text(&self, text: &str, is_bold: bool) -> (r: String) {
        if is_bold {
            stylize_green_bold(text)
        } else {
            stylize_green(text)
        }
    }

    fn get_icon_information(&self) -> (r: String)
        ensures
            self.use_emoji ==> r@ == (match emoji_for_shortcode("information_source"@) {
                Some(e) => e + " "@,
                None => "\u{2139}\u{fe0f} "@,
            }),
            !self.use_emoji ==> r@ == "[i] "@,
    {
        if self.use_emoji {
            match lookup_emoji("information_source") {
                Some(e) => e.concat(" "),
                None => String::from_str("\u{2139}\u{fe0f} "),
            }
        } else {
            String::from_str("[i] ")
        }
    }

    fn get_icon_for_target_type(&self, target_type: TargetType) -> (r: String)
        ensures
            r@ == spec_icon_for(self.use_emoji, target_type),
    {
        icon_for_target_type(self.use_emoji, target_type)
    }
}

} // verus!
