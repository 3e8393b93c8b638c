//! Recognition of the events that the emulator writes to its log.

use vstd::prelude::*;
use crate::text::{chars_of, decimal, parse_u32, parsed_u32, push_decimal, string_of};

verus! {

/// What a line of the log reports.
#[derive(Clone, Copy, Debug, PartialEq, Eq, Structural)]
pub enum LogEvent {
    GameIdentified(u32),
    AchievementUnlocked(u32),
}

/// The text that group number `group` of the regular expression `pattern`
/// captures in the leftmost match in `text`; nothing where the expression is
/// malformed, does not match, or matches without that group.
pub uninterp spec fn captured(pattern: Seq<char>, text: Seq<char>, group: nat) -> Option<
    Seq<char>,
>;

/// The text of an optional string.
pub open spec fn opt_text(s: Option<String>) -> Option<Seq<char>> {
    match s {
        Some(t) => Some(t@),
        None => None,
    }
}

/// Compiles `pattern` with `regex::Regex::new`, asks `Regex::captures` for
/// the leftmost match in `text`, and takes the text of the group with
/// `Captures::get`.  The contract only names the result; a pattern that does
/// not compile gives nothing.
#[verifier::external_body]
fn capture(pattern: &str, text: &str, group: usize) -> (found: Option<String>)
    ensures
        opt_text(found) == captured(pattern@, text@, group as nat),
{
    match regex::Regex::new(pattern) {
        Ok(re) => match re.captures(text) {
            Some(caps) => caps.get(group).map(|m| m.as_str().to_owned()),
            None => None,
        },
        Err(_) => None,
    }
}

/// The event that a line reports, given the number captured from it as an
/// identified game and the number captured as an awarded achievement.  A
/// line that names a game reports the game, or nothing where the number does
/// not fit; only a line that names no game is looked at for an achievement.
pub open spec fn line_event(game: Option<Seq<char>>, achievement: Option<Seq<char>>) -> Option<
    LogEvent,
> {
    match game {
        Some(id) => match parsed_u32(id) {
            Some(n) => Some(LogEvent::GameIdentified(n)),
            None => None,
        },
        None => match achievement {
            Some(id) => match parsed_u32(id) {
                Some(n) => Some(LogEvent::AchievementUnlocked(n)),
                None => None,
            },
            None => None,
        },
    }
}

/// The event that a line reports, given what was captured from it.
pub fn classify(game: &Option<String>, achievement: &Option<String>) -> (event: Option<LogEvent>)
    ensures
        event == line_event(opt_text(*game), opt_text(*achievement)),
{
    match game {
        Some(id) => match parse_u32(id.as_str()) {
            Some(n) => Some(LogEvent::GameIdentified(n)),
            None => None,
        },
        None => match achievement {
            Some(id) => match parse_u32(id.as_str()) {
                Some(n) => Some(LogEvent::AchievementUnlocked(n)),
                None => None,
            },
            None => None,
        },
    }
}

/// The event that a line of the log reports, if any: a game identified by
/// number, or an achievement awarded by number.
pub fn scan_line(line: &str) -> (event: Option<LogEvent>)
    ensures
        event == line_event(
            captured("Identified game: (\\d+)"@, line@, 1),
            captured("Achievement (\\d+) awarded"@, line@, 1),
        ),
{
    let game = capture("Identified game: (\\d+)", line, 1);
    let achievement = capture("Achievement (\\d+) awarded", line, 1);
    classify(&game, &achievement)
}

/// The notification sent to the player for an awarded achievement.
pub fn achievement_notice(id: u32) -> (notice: String)
    ensures
        notice@ == "achievement|"@ + decimal(id as nat),
{
    let mut out = chars_of("achievement|");
    push_decimal(&mut out, id as u64);
    string_of(&out)
}

/// Where to read the log from, given how far it was read and how long it
/// is now: from where reading stopped if the log has grown, and not at all
/// otherwise.
pub fn unread_from(last_pos: u64, current_pos: u64) -> (start: Option<u64>)
    ensures
        start == if current_pos > last_pos {
            Some(last_pos)
        } else {
            None
        },
{
    if current_pos > last_pos {
        Some(last_pos)
    } else {
        None
    }
}

} // verus!
