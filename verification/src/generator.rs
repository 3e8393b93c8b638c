//! Generation of a marquee from a game's fanart and logo, by the external
//! image compositor.

use vstd::prelude::*;
use crate::config::{join, Config, Settings};
use crate::files::FileSet;
use crate::process::{update_command, update_marquee, ShellCommand};
use crate::template::{bound, substitute, substituted, Binding};
use crate::text::{chars_of, extend_chars, join_path, string_of, texts};

verus! {

/// A source image of a game: the game's name with `suffix` in the `images`
/// directory of its system, below the ROM directory.
pub open spec fn art_path(
    settings: Settings,
    system_name: Seq<char>,
    game_name: Seq<char>,
    suffix: Seq<char>,
) -> Seq<char> {
    join_path(
        join_path(join_path(settings.roms_path->0@, system_name), "images"@),
        game_name + suffix,
    )
}

/// Where the generated marquee of a game is written.
pub open spec fn target_path(settings: Settings, system_name: Seq<char>, game_name: Seq<char>) -> Seq<
    char,
> {
    join_path(
        settings.marquee_image_path->0@,
        system_name + "-"@ + game_name + "-generated.png"@,
    )
}

/// The compositor's command line for a game.
pub open spec fn convert_line(settings: Settings, system_name: Seq<char>, game_name: Seq<char>) -> Seq<
    char,
> {
    substituted(
        settings.im_convert_command@,
        seq![
            ("IMPath"@, settings.im_path->0@),
            ("FanartPath"@, art_path(settings, system_name, game_name, "-fanart.jpg"@)),
            ("LogoPath"@, art_path(settings, system_name, game_name, "-marquee.png"@)),
            ("ImgTargetPath"@, target_path(settings, system_name, game_name)),
        ],
    )
}

/// What generation consists of: the command to run to completion, and the
/// file that it writes.
#[derive(Clone, Debug)]
pub struct Generation {
    pub command: ShellCommand,
    pub target: String,
}

/// The two texts, one after the other.
fn concat(a: &str, b: &str) -> (text: String)
    ensures
        text@ == a@ + b@,
{
    let mut chars = chars_of(a);
    let tail = chars_of(b);
    extend_chars(&mut chars, &tail);
    string_of(&chars)
}

/// The source image of a game with the given suffix.
fn art_file(system_name: &str, game_name: &str, suffix: &str, config: &Config) -> (path: String)
    requires
        config.settings.roms_path is Some,
    ensures
        path@ == art_path(config.settings, system_name@, game_name@, suffix@),
{
    let roms = match &config.settings.roms_path {
        Some(p) => p.as_str(),
        None => "",
    };
    let system_dir = join(roms, system_name);
    let images_dir = join(system_dir.as_str(), "images");
    let file = concat(game_name, suffix);
    join(images_dir.as_str(), file.as_str())
}

/// The fanart of a game, if it exists.
pub fn find_fanart_file(system_name: &str, game_name: &str, config: &Config, files: &FileSet) -> (found:
    Option<String>)
    requires
        config.settings.roms_path is Some,
    ensures
        found is Some == files@.contains(
            art_path(config.settings, system_name@, game_name@, "-fanart.jpg"@),
        ),
        found is Some ==> found->0@ == art_path(
            config.settings,
            system_name@,
            game_name@,
            "-fanart.jpg"@,
        ),
{
    let fanart_path = art_file(system_name, game_name, "-fanart.jpg", config);
    if files.contains(fanart_path.as_str()) {
        return Some(fanart_path);
    }
    None
}

/// The logo of a game, if it exists.
pub fn find_logo_file(system_name: &str, game_name: &str, config: &Config, files: &FileSet) -> (found:
    Option<String>)
    requires
        config.settings.roms_path is Some,
    ensures
        found is Some == files@.contains(
            art_path(config.settings, system_name@, game_name@, "-marquee.png"@),
        ),
        found is Some ==> found->0@ == art_path(
            config.settings,
            system_name@,
            game_name@,
            "-marquee.png"@,
        ),
{
    let logo_path = art_file(system_name, game_name, "-marquee.png", config);
    if files.contains(logo_path.as_str()) {
        return Some(logo_path);
    }
    None
}

/// The files that generation looks for: the fanart of the game, then its
/// logo.
pub fn source_paths(system_name: &str, game_name: &str, config: &Config) -> (paths: Vec<String>)
    requires
        config.settings.roms_path is Some,
    ensures
        texts(paths@) == seq![
            art_path(config.settings, system_name@, game_name@, "-fanart.jpg"@),
            art_path(config.settings, system_name@, game_name@, "-marquee.png"@),
        ],
{
    let mut paths: Vec<String> = Vec::new();
    paths.push(art_file(system_name, game_name, "-fanart.jpg", config));
    paths.push(art_file(system_name, game_name, "-marquee.png", config));
    proof {
        assert(texts(paths@) =~= seq![
            art_path(config.settings, system_name@, game_name@, "-fanart.jpg"@),
            art_path(config.settings, system_name@, game_name@, "-marquee.png"@),
        ]);
    }
    paths
}

/// How to generate the marquee of a game: nothing unless both its fanart
/// and its logo exist; otherwise the compositor's command, with the
/// compositor, the two sources and the target put into the template, and the
/// target that the command writes.
pub fn autogen_marquee(system_name: &str, game_name: &str, config: &Config, files: &FileSet) -> (plan:
    Option<Generation>)
    requires
        config.settings.roms_path is Some,
        config.settings.marquee_image_path is Some,
        config.settings.im_path is Some,
    ensures
        plan is Some == (files@.contains(
            art_path(config.settings, system_name@, game_name@, "-fanart.jpg"@),
        ) && files@.contains(art_path(config.settings, system_name@, game_name@, "-marquee.png"@))),
        plan is Some ==> plan->0.target@ == target_path(
            config.settings,
            system_name@,
            game_name@,
        ) && plan->0.command@ == (convert_line(config.settings, system_name@, game_name@), false),
{
    let fanart_path = find_fanart_file(system_name, game_name, config, files);
    let logo_path = find_logo_file(system_name, game_name, config, files);
    match (fanart_path, logo_path) {
        (Some(fanart), Some(logo)) => {
            let head = concat(system_name, "-");
            let stem = concat(head.as_str(), game_name);
            let file = concat(stem.as_str(), "-generated.png");
            let images = match &config.settings.marquee_image_path {
                Some(p) => p.as_str(),
                None => "",
            };
            let target = join(images, file.as_str());
            let compositor = match &config.settings.im_path {
                Some(p) => p.as_str(),
                None => "",
            };
            let mut bindings: Vec<Binding> = Vec::new();
            bindings.push(Binding::new("IMPath", compositor));
            bindings.push(Binding::new("FanartPath", fanart.as_str()));
            bindings.push(Binding::new("LogoPath", logo.as_str()));
            bindings.push(Binding::new("ImgTargetPath", target.as_str()));
            proof {
                assert(bound(bindings@) =~= seq![
                    ("IMPath"@, config.settings.im_path->0@),
                    ("FanartPath"@, fanart@),
                    ("LogoPath"@, logo@),
                    ("ImgTargetPath"@, target@),
                ]);
            }
            let line = substitute(config.settings.im_convert_command.as_str(), &bindings);
            Some(Generation { command: ShellCommand { line, detached: false }, target })
        },
        _ => None,
    }
}

/// What follows the compositor's run: where it could be run, the display
/// update for the generated marquee, if the command table holds one; nothing
/// where it could not be run.
pub fn after_generation(ran: bool, plan: &Generation, config: &Config) -> (command: Option<
    ShellCommand,
>)
    ensures
        !ran ==> command is None,
        ran ==> command is Some == update_command(
            plan.target@,
            config.settings,
            config.commands.commands@,
        ) is Some,
        ran && command is Some ==> Some(command->0@) == update_command(
            plan.target@,
            config.settings,
            config.commands.commands@,
        ),
{
    if ran {
        update_marquee(plan.target.as_str(), config)
    } else {
        None
    }
}

} // verus!
