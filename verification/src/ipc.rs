//! The messages sent to the player's script over its channel.

use vstd::prelude::*;
use crate::api::{Achievement, GameInfoAndUserProgress, UserProfile};
use crate::text::{
    chars_of, decimal, extend_chars, joined, push_decimal, push_text, replace_all, replace_chars,
    string_of,
};

verus! {

/// `s` with every backslash doubled.
pub open spec fn escaped(s: Seq<char>) -> Seq<char> {
    replace_all(s, "\\"@, "\\\\"@)
}

/// The message that carries a user profile.
pub open spec fn user_profile_text(user: Seq<char>, user_pic: Seq<char>) -> Seq<char> {
    "user_info|"@ + user + "|"@ + escaped(user_pic)
}

/// The text of one achievement: title, description, points and badge,
/// separated by semicolons.
pub open spec fn achievement_text(achievement: Achievement) -> Seq<char> {
    achievement.title@ + ";"@ + achievement.description@ + ";"@ + decimal(
        achievement.points as nat,
    ) + ";"@ + escaped(achievement.badge_name@)
}

/// The texts of the achievements, in order.
pub open spec fn achievement_texts(achievements: Seq<(String, Achievement)>) -> Seq<Seq<char>> {
    achievements.map_values(|e: (String, Achievement)| achievement_text(e.1))
}

/// The message that carries a game and the progress in it.
pub open spec fn game_info_text(game_info: GameInfoAndUserProgress) -> Seq<char> {
    "game_info|"@ + game_info.title@ + "|"@ + escaped(game_info.game_icon@) + "|"@ + decimal(
        game_info.num_awarded_to_user as nat,
    ) + "|"@ + game_info.user_completion@ + "|"@ + joined(
        achievement_texts(game_info.achievements@),
        "|"@,
    )
}

/// Appends `s` with every backslash doubled.
fn push_escaped(out: &mut Vec<char>, s: &str)
    ensures
        final(out)@ == old(out)@ + escaped(s@),
{
    let text = chars_of(s);
    let one = chars_of("\\");
    let two = chars_of("\\\\");
    let doubled = replace_chars(&text, &one, &two);
    extend_chars(out, &doubled);
}

/// Appends the text of one achievement.
fn push_achievement(out: &mut Vec<char>, achievement: &Achievement)
    ensures
        final(out)@ == old(out)@ + achievement_text(*achievement),
{
    push_text(out, achievement.title.as_str());
    push_text(out, ";");
    push_text(out, achievement.description.as_str());
    push_text(out, ";");
    push_decimal(out, achievement.points as u64);
    push_text(out, ";");
    push_escaped(out, achievement.badge_name.as_str());
    proof {
        assert(final(out)@ =~= old(out)@ + achievement_text(*achievement));
    }
}

/// The line written to the player's channel for `data`.
pub fn mpv_message(data: &str) -> (line: String)
    ensures
        line@ == "script-message ra-data "@ + data@ + "\n"@,
{
    let mut out = chars_of("script-message ra-data ");
    push_text(&mut out, data);
    push_text(&mut out, "\n");
    string_of(&out)
}

/// The message that carries a user profile: the user's name and picture,
/// the backslashes of the picture doubled.
pub fn format_user_profile(profile: &UserProfile) -> (message: String)
    ensures
        message@ == user_profile_text(profile.user@, profile.user_pic@),
{
    let mut out = chars_of("user_info|");
    push_text(&mut out, profile.user.as_str());
    push_text(&mut out, "|");
    push_escaped(&mut out, profile.user_pic.as_str());
    string_of(&out)
}

/// The message that carries a game and the progress in it: title, icon,
/// number of achievements awarded and completion, then the achievements in
/// order, all separated by bars.
pub fn format_game_info(game_info: &GameInfoAndUserProgress) -> (message: String)
    ensures
        message@ == game_info_text(*game_info),
{
    let mut out = chars_of("game_info|");
    push_text(&mut out, game_info.title.as_str());
    push_text(&mut out, "|");
    push_escaped(&mut out, game_info.game_icon.as_str());
    push_text(&mut out, "|");
    push_decimal(&mut out, game_info.num_awarded_to_user as u64);
    push_text(&mut out, "|");
    push_text(&mut out, game_info.user_completion.as_str());
    push_text(&mut out, "|");
    let ghost head = out@;
    let ghost all = achievement_texts(game_info.achievements@);
    let mut i: usize = 0;
    proof {
        assert(out@ =~= head + joined(all.take(0), "|"@));
    }
    while i < game_info.achievements.len()
        invariant
            i <= game_info.achievements.len(),
            all == achievement_texts(game_info.achievements@),
            out@ == head + joined(all.take(i as int), "|"@),
        decreases game_info.achievements.len() - i,
    {
        let ghost before = out@;
        if i > 0 {
            push_text(&mut out, "|");
        }
        push_achievement(&mut out, &game_info.achievements[i].1);
        proof {
            assert(all.take(i + 1).drop_last() =~= all.take(i as int));
            assert(all.take(i + 1).last() == achievement_text(game_info.achievements@[i as int].1));
            assert(out@ =~= head + joined(all.take(i + 1), "|"@));
        }
        i += 1;
    }
    proof {
        assert(all.take(game_info.achievements.len() as int) =~= all);
        assert(out@ =~= game_info_text(*game_info));
    }
    string_of(&out)
}

} // verus!
