//! What the panels show, apart from how it is drawn: the tone of a value,
//! the words that stand for it, and the part of a list that has room on
//! screen.

use crate::dashboard::logs::LogMessage;
use crate::dashboard::state::{page_index, page_title, FxState, FxView, Page};
use crate::github::models::{
    FetchStatus, GithubProfile, ProfileView, RateLimit, RateLimitView, StatusView,
};
use crate::text::{decimal, push_decimal, same_text};
use vstd::prelude::*;

verus! {

/// The colours that the panels use.
#[derive(Debug, Clone, Copy, PartialEq, Eq, Structural)]
pub enum Tone {
    Red,
    Yellow,
    LightYellow,
    Green,
    Cyan,
    LightBlue,
    LightMagenta,
    Gray,
    DarkGray,
    White,
    /// A colour by its red, green and blue parts.
    Rgb(u8, u8, u8),
}

/// The marks that the spinner shows in turn.
pub const SPINNER_FRAMES: [char; 4] = ['|', '/', '-', '\\'];

/// How many frames the spinner shows each of its marks.
pub const SPINNER_PACE: u64 = 3;

/// How many rows of a panel its border takes.
pub const BORDER_ROWS: u16 = 2;

/// The tone of the status line.
pub open spec fn tone_of_status(status: StatusView) -> Tone {
    match status {
        StatusView::Fetching => Tone::Yellow,
        StatusView::Error(_) => Tone::Red,
        StatusView::Success => Tone::Green,
        StatusView::Idle => Tone::DarkGray,
    }
}

/// The tone of the allowance where it is shown in full: red where it is
/// low, yellow where less than half of it is left, and green otherwise.
pub open spec fn tone_of_allowance(allowance: RateLimitView) -> Tone {
    if allowance.remaining < 10 {
        Tone::Red
    } else if allowance.remaining < allowance.limit / 2 {
        Tone::Yellow
    } else {
        Tone::Green
    }
}

/// The mark of the spinner at a frame: each mark stays for `SPINNER_PACE`
/// frames, and the first follows the last.
pub open spec fn spinner_mark(frame_count: u64) -> char {
    SPINNER_FRAMES[(frame_count / SPINNER_PACE) as int % 4]
}

/// The tone of a log line of a level.
pub open spec fn tone_of_level(level: Seq<char>) -> Tone {
    if level == "ERROR"@ {
        Tone::Red
    } else if level == "WARN"@ {
        Tone::Yellow
    } else if level == "INFO"@ {
        Tone::Cyan
    } else if level == "DEBUG"@ {
        Tone::Gray
    } else {
        Tone::White
    }
}

/// The index of the first of `count` lines that has room in a panel
/// `height` rows high, the last line standing at the bottom: the border
/// takes `BORDER_ROWS` rows, and the last lines fill the others.
pub open spec fn tail_start(count: usize, height: u16) -> usize {
    if height <= BORDER_ROWS {
        count
    } else if count <= height - BORDER_ROWS {
        0
    } else {
        (count - (height - BORDER_ROWS)) as usize
    }
}

/// What follows the last slash of `s`: all of `s` where it has none.
pub open spec fn after_last_slash(s: Seq<char>) -> Seq<char>
    decreases s.len(),
{
    if s.len() == 0 || s.last() == '/' {
        Seq::empty()
    } else {
        after_last_slash(s.drop_last()).push(s.last())
    }
}

/// The tone of a place in a ranking, the first being place zero: the
/// first three have tones of their own.
pub open spec fn tone_of_rank(rank: usize) -> Tone {
    if rank == 0 {
        Tone::Yellow
    } else if rank == 1 {
        Tone::LightBlue
    } else if rank == 2 {
        Tone::LightMagenta
    } else {
        Tone::DarkGray
    }
}

/// The colour that stands for the programming language of this name in
/// lower case; gray for every other name.
pub open spec fn tone_of_language(lower: Seq<char>) -> Tone {
    if lower == "rust"@ {
        Tone::Rgb(222, 165, 132)
    } else if lower == "python"@ {
        Tone::Rgb(53, 114, 165)
    } else if lower == "javascript"@ {
        Tone::Rgb(241, 224, 90)
    } else if lower == "typescript"@ {
        Tone::Rgb(49, 120, 198)
    } else if lower == "go"@ {
        Tone::Rgb(0, 173, 216)
    } else if lower == "java"@ {
        Tone::Rgb(176, 114, 25)
    } else if lower == "c++"@ || lower == "cpp"@ {
        Tone::Rgb(243, 75, 125)
    } else if lower == "c"@ {
        Tone::Rgb(85, 85, 85)
    } else if lower == "c#"@ || lower == "csharp"@ {
        Tone::Rgb(104, 33, 122)
    } else if lower == "ruby"@ {
        Tone::Rgb(112, 21, 22)
    } else if lower == "php"@ {
        Tone::Rgb(79, 93, 149)
    } else if lower == "swift"@ {
        Tone::Rgb(255, 172, 69)
    } else if lower == "kotlin"@ {
        Tone::Rgb(169, 123, 255)
    } else if lower == "shell"@ || lower == "bash"@ {
        Tone::Rgb(137, 224, 81)
    } else if lower == "html"@ {
        Tone::Rgb(227, 76, 38)
    } else if lower == "css"@ {
        Tone::Rgb(86, 61, 124)
    } else if lower == "vue"@ {
        Tone::Rgb(65, 184, 131)
    } else if lower == "react"@ {
        Tone::Rgb(97, 218, 251)
    } else {
        Tone::Gray
    }
}

/// The word for the state of the animations.
pub open spec fn motion_word(fx: FxView) -> Seq<char> {
    if fx.animations_paused {
        "PAUSED"@
    } else if fx.reduced_motion {
        "REDUCED"@
    } else {
        "ENABLED"@
    }
}

/// The name to show for a user: the full name, or the login where no
/// full name is given.
pub open spec fn name_shown(profile: ProfileView) -> Seq<char> {
    match profile.name {
        Some(name) => name,
        None => profile.login,
    }
}

/// The words that tell which page is open, such as ` [2/4] Repositories `.
pub open spec fn page_words(page: Page) -> Seq<char> {
    " ["@ + decimal((page_index(page) + 1) as nat) + "/4] "@ + page_title(page) + " "@
}

/// The lower-case form of `text`, as the standard library makes it by
/// Unicode's case mapping.
pub uninterp spec fn lowercase_of(text: Seq<char>) -> Seq<char>;

/// `str::to_lowercase`.
#[verifier::external_body]
fn std_to_lowercase(text: &str) -> (r: String)
    ensures
        r@ == lowercase_of(text@),
{
    text.to_lowercase()
}

/// The tone of the status line.
pub fn status_tone(status: &FetchStatus) -> (r: Tone)
    ensures
        r == tone_of_status(status@),
{
    match status {
        FetchStatus::Fetching => Tone::Yellow,
        FetchStatus::Error(_) => Tone::Red,
        FetchStatus::Success => Tone::Green,
        FetchStatus::Idle => Tone::DarkGray,
    }
}

/// The tone of the allowance where it is shown in full.
pub fn allowance_tone(allowance: &RateLimit) -> (r: Tone)
    ensures
        r == tone_of_allowance(allowance@),
{
    if allowance.is_low() {
        Tone::Red
    } else if allowance.remaining < allowance.limit / 2 {
        Tone::Yellow
    } else {
        Tone::Green
    }
}

/// The tone of the allowance in the status bar: red where it is low, and
/// dark gray otherwise.
pub fn allowance_alert_tone(allowance: &RateLimit) -> (r: Tone)
    ensures
        r == if allowance@.remaining < 10 {
            Tone::Red
        } else {
            Tone::DarkGray
        },
{
    if allowance.is_low() {
        Tone::Red
    } else {
        Tone::DarkGray
    }
}

/// The mark of the spinner at a frame.
pub fn spinner_frame(frame_count: u64) -> (r: char)
    ensures
        r == spinner_mark(frame_count),
{
    let turn: u64 = (frame_count / SPINNER_PACE) % 4;
    if turn == 0 {
        '|'
    } else if turn == 1 {
        '/'
    } else if turn == 2 {
        '-'
    } else {
        '\\'
    }
}

/// The tone of a log line of a level.
pub fn level_tone(level: &str) -> (r: Tone)
    ensures
        r == tone_of_level(level@),
{
    if same_text(level, "ERROR") {
        Tone::Red
    } else if same_text(level, "WARN") {
        Tone::Yellow
    } else if same_text(level, "INFO") {
        Tone::Cyan
    } else if same_text(level, "DEBUG") {
        Tone::Gray
    } else {
        Tone::White
    }
}

/// The lines of the log that have room in a panel `height` rows high:
/// the last ones, oldest first.
pub fn visible_lines(lines: &Vec<LogMessage>, height: u16) -> (r: Vec<LogMessage>)
    ensures
        r.deep_view() == lines.deep_view().skip(tail_start(lines.len(), height) as int),
{
    let room: usize = if height <= BORDER_ROWS {
        0
    } else {
        (height - BORDER_ROWS) as usize
    };
    let start: usize = if lines.len() <= room {
        0
    } else {
        lines.len() - room
    };
    let mut shown: Vec<LogMessage> = Vec::new();
    let mut i: usize = start;
    assert(shown.deep_view() =~= lines.deep_view().subrange(start as int, i as int));
    while i < lines.len()
        invariant
            start <= i <= lines.len(),
            shown.deep_view() == lines.deep_view().subrange(start as int, i as int),
        decreases lines.len() - i,
    {
        let ghost held = shown.deep_view();
        let line = lines[i].clone();
        shown.push(line);
        assert(shown.deep_view() =~= held.push(line@));
        assert(shown.deep_view() =~= lines.deep_view().subrange(start as int, i + 1));
        i += 1;
    }
    assert(lines.deep_view().subrange(start as int, i as int) =~= lines.deep_view().skip(
        start as int,
    ));
    shown
}

/// The name of a repository without the owner in front of it: what
/// follows the last slash.
pub fn short_repo_name(name: &str) -> (r: &str)
    ensures
        r@ == after_last_slash(name@),
{
    let len = name.unicode_len();
    let mut start: usize = len;
    assert(name@.subrange(len as int, len as int) =~= Seq::<char>::empty());
    assert(name@.subrange(0, len as int) =~= name@);
    while start > 0 && name.get_char(start - 1) != '/'
        invariant
            start <= len,
            len == name@.len(),
            after_last_slash(name@) == after_last_slash(name@.subrange(0, start as int))
                + name@.subrange(start as int, len as int),
        decreases start,
    {
        proof {
            let head = name@.subrange(0, start as int);
            assert(head.drop_last() =~= name@.subrange(0, start - 1));
            assert(after_last_slash(head) == after_last_slash(head.drop_last()).push(head.last()));
            assert(after_last_slash(head.drop_last()).push(head.last()) + name@.subrange(
                start as int,
                len as int,
            ) =~= after_last_slash(head.drop_last()) + name@.subrange(start - 1, len as int));
        }
        start -= 1;
    }
    assert(after_last_slash(name@.subrange(0, start as int)) =~= Seq::<char>::empty());
    assert(Seq::<char>::empty() + name@.subrange(start as int, len as int) =~= name@.subrange(
        start as int,
        len as int,
    ));
    name.substring_char(start, len)
}

/// The tone of a place in a ranking, the first being place zero.
pub fn rank_tone(rank: usize) -> (r: Tone)
    ensures
        r == tone_of_rank(rank),
{
    if rank == 0 {
        Tone::Yellow
    } else if rank == 1 {
        Tone::LightBlue
    } else if rank == 2 {
        Tone::LightMagenta
    } else {
        Tone::DarkGray
    }
}

/// The colour that stands for the programming language of this name,
/// which is in lower case.
pub fn lowered_language_tone(lower: &str) -> (r: Tone)
    ensures
        r == tone_of_language(lower@),
{
    if same_text(lower, "rust") {
        Tone::Rgb(222, 165, 132)
    } else if same_text(lower, "python") {
        Tone::Rgb(53, 114, 165)
    } else if same_text(lower, "javascript") {
        Tone::Rgb(241, 224, 90)
    } else if same_text(lower, "typescript") {
        Tone::Rgb(49, 120, 198)
    } else if same_text(lower, "go") {
        Tone::Rgb(0, 173, 216)
    } else if same_text(lower, "java") {
        Tone::Rgb(176, 114, 25)
    } else if same_text(lower, "c++") || same_text(lower, "cpp") {
        Tone::Rgb(243, 75, 125)
    } else if same_text(lower, "c") {
        Tone::Rgb(85, 85, 85)
    } else if same_text(lower, "c#") || same_text(lower, "csharp") {
        Tone::Rgb(104, 33, 122)
    } else if same_text(lower, "ruby") {
        Tone::Rgb(112, 21, 22)
    } else if same_text(lower, "php") {
        Tone::Rgb(79, 93, 149)
    } else if same_text(lower, "swift") {
        Tone::Rgb(255, 172, 69)
    } else if same_text(lower, "kotlin") {
        Tone::Rgb(169, 123, 255)
    } else if same_text(lower, "shell") || same_text(lower, "bash") {
        Tone::Rgb(137, 224, 81)
    } else if same_text(lower, "html") {
        Tone::Rgb(227, 76, 38)
    } else if same_text(lower, "css") {
        Tone::Rgb(86, 61, 124)
    } else if same_text(lower, "vue") {
        Tone::Rgb(65, 184, 131)
    } else if same_text(lower, "react") {
        Tone::Rgb(97, 218, 251)
    } else {
        Tone::Gray
    }
}

/// The colour that stands for the programming language of this name,
/// however its letters are cased.
pub fn language_tone(language: &str) -> (r: Tone)
    ensures
        r == tone_of_language(lowercase_of(language@)),
{
    let lower = std_to_lowercase(language);
    lowered_language_tone(lower.as_str())
}

/// The word for the state of the animations.
pub fn motion_label(fx: &FxState) -> (r: &'static str)
    ensures
        r@ == motion_word(fx@),
{
    if fx.animations_paused() {
        "PAUSED"
    } else if fx.reduced_motion() {
        "REDUCED"
    } else {
        "ENABLED"
    }
}

/// The tone of the word for the state of the animations: green where
/// they play, yellow where they do not.
pub fn motion_tone(fx: &FxState) -> (r: Tone)
    ensures
        r == if fx@.animates() {
            Tone::Green
        } else {
            Tone::Yellow
        },
{
    if fx.should_animate() {
        Tone::Green
    } else {
        Tone::Yellow
    }
}

/// The name to show for a user.
pub fn display_name(profile: &GithubProfile) -> (r: &str)
    ensures
        r@ == name_shown(profile@),
{
    match &profile.name {
        Some(name) => name.as_str(),
        None => profile.login.as_str(),
    }
}

/// The words that tell which page is open.
pub fn page_indicator(page: Page) -> (r: String)
    ensures
        r@ == page_words(page),
{
    let mut out = String::from_str(" [");
    push_decimal(&mut out, (page.index() + 1) as u64);
    out.append("/4] ");
    out.append(page.title());
    out.append(" ");
    assert(out@ =~= page_words(page));
    out
}

} // verus!
