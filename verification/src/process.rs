//! The commands that drive the external player: how it is stopped, started
//! and told to show another image.  Nothing is run here; each operation
//! hands back the commands for the caller to run, in order.

use vstd::prelude::*;
use crate::config::Config;
use crate::config::Settings;
use crate::template::{bound, substitute, substituted, Binding};
use crate::text::{push_signed_decimal, signed_decimal, string_of, texts};

verus! {

/// A command line for the shell, and whether it is started detached (not
/// waited for) or run to completion.
#[derive(Clone, Debug)]
pub struct ShellCommand {
    pub line: String,
    pub detached: bool,
}

impl View for ShellCommand {
    type V = (Seq<char>, bool);

    open spec fn view(&self) -> (Seq<char>, bool) {
        (self.line@, self.detached)
    }
}

/// Whether the player is taken to be running.
#[derive(Clone, Copy, Debug, PartialEq, Eq, Structural)]
pub enum PlayerState {
    Stopped,
    Running,
}

/// What happened to the player.
#[derive(Clone, Copy, Debug, PartialEq, Eq, Structural)]
pub enum PlayerEvent {
    /// The kill command was run; its outcome does not matter.
    Killed,
    /// The launch command was started.
    Launched,
    /// The launch command could not be started.
    LaunchFailed,
}

/// The state of the player after an event, whatever it was before.
pub open spec fn state_after(event: PlayerEvent) -> PlayerState {
    match event {
        PlayerEvent::Killed => PlayerState::Stopped,
        PlayerEvent::Launched => PlayerState::Running,
        PlayerEvent::LaunchFailed => PlayerState::Stopped,
    }
}

impl PlayerState {
    /// The state that follows `self` on `event`.
    pub fn next(self, event: PlayerEvent) -> (state: PlayerState)
        ensures
            state == state_after(event),
    {
        match event {
            PlayerEvent::Killed => PlayerState::Stopped,
            PlayerEvent::Launched => PlayerState::Running,
            PlayerEvent::LaunchFailed => PlayerState::Stopped,
        }
    }
}

/// The command line that starts the player: the launch template with the
/// player's path, the channel, the screen number and the default image put in.
pub open spec fn launch_line(settings: Settings) -> Seq<char> {
    substituted(
        settings.mpv_launch_command@,
        seq![
            ("MPVPath"@, settings.mpv_path->0@),
            ("IPCChannel"@, settings.ipc_channel@),
            ("ScreenNumber"@, signed_decimal(settings.screen_number as int)),
            ("DefaultImagePath"@, settings.default_image_path->0@),
        ],
    )
}

/// The command that tells the player to show `marquee_path`, if the command
/// table holds one: the template under `game-selected` with the path and the
/// channel put in, run to completion.
pub open spec fn update_command(
    marquee_path: Seq<char>,
    settings: Settings,
    commands: Map<Seq<char>, Seq<char>>,
) -> Option<(Seq<char>, bool)> {
    if commands.contains_key("game-selected"@) {
        Some(
            (
                substituted(
                    commands["game-selected"@],
                    seq![("marquee_file"@, marquee_path), ("IPCChannel"@, settings.ipc_channel@)],
                ),
                false,
            ),
        )
    } else {
        None
    }
}

/// The program and the arguments with which a command is run: the shell,
/// told to carry out the command line and then end.
pub fn shell_arguments(command: &ShellCommand) -> (arguments: Vec<String>)
    ensures
        texts(arguments@) == seq!["cmd"@, "/C"@, command.line@],
{
    let mut arguments: Vec<String> = Vec::new();
    arguments.push("cmd".to_owned());
    arguments.push("/C".to_owned());
    arguments.push(command.line.clone());
    proof {
        assert(texts(arguments@) =~= seq!["cmd"@, "/C"@, command.line@]);
    }
    arguments
}

/// The command that stops the player: the kill command as configured, run
/// to completion.
pub fn kill_media_player(config: &Config) -> (command: ShellCommand)
    ensures
        command@ == (config.settings.mpv_kill_command@, false),
{
    ShellCommand { line: config.settings.mpv_kill_command.clone(), detached: false }
}

/// The commands that start the player, in order: first the kill command,
/// whether or not a player is running, then the launch command, detached.
pub fn launch_media_player(config: &Config) -> (commands: Vec<ShellCommand>)
    requires
        config.settings.mpv_path is Some,
        config.settings.default_image_path is Some,
    ensures
        commands@.len() == 2,
        commands@[0]@ == (config.settings.mpv_kill_command@, false),
        commands@[1]@ == (launch_line(config.settings), true),
{
    let mut commands: Vec<ShellCommand> = Vec::new();
    commands.push(kill_media_player(config));
    let mut digits: Vec<char> = Vec::new();
    push_signed_decimal(&mut digits, config.settings.screen_number);
    let screen = string_of(&digits);
    let player = match &config.settings.mpv_path {
        Some(p) => p.as_str(),
        None => "",
    };
    let image = match &config.settings.default_image_path {
        Some(p) => p.as_str(),
        None => "",
    };
    let mut bindings: Vec<Binding> = Vec::new();
    bindings.push(Binding::new("MPVPath", player));
    bindings.push(Binding::new("IPCChannel", config.settings.ipc_channel.as_str()));
    bindings.push(Binding::new("ScreenNumber", screen.as_str()));
    bindings.push(Binding::new("DefaultImagePath", image));
    proof {
        assert(digits@ =~= signed_decimal(config.settings.screen_number as int));
        assert(bound(bindings@) =~= seq![
            ("MPVPath"@, config.settings.mpv_path->0@),
            ("IPCChannel"@, config.settings.ipc_channel@),
            ("ScreenNumber"@, signed_decimal(config.settings.screen_number as int)),
            ("DefaultImagePath"@, config.settings.default_image_path->0@),
        ]);
    }
    let line = substitute(config.settings.mpv_launch_command.as_str(), &bindings);
    commands.push(ShellCommand { line, detached: true });
    commands
}

/// The command that tells the player to show `marquee_path`; none where the
/// command table holds no template under `game-selected`.
pub fn update_marquee(marquee_path: &str, config: &Config) -> (command: Option<ShellCommand>)
    ensures
        command is Some == update_command(
            marquee_path@,
            config.settings,
            config.commands.commands@,
        ) is Some,
        command is Some ==> Some(command->0@) == update_command(
            marquee_path@,
            config.settings,
            config.commands.commands@,
        ),
{
    match config.commands.commands.get("game-selected") {
        Some(template) => {
            let mut bindings: Vec<Binding> = Vec::new();
            bindings.push(Binding::new("marquee_file", marquee_path));
            bindings.push(Binding::new("IPCChannel", config.settings.ipc_channel.as_str()));
            proof {
                assert(bound(bindings@) =~= seq![
                    ("marquee_file"@, marquee_path@),
                    ("IPCChannel"@, config.settings.ipc_channel@),
                ]);
            }
            let line = substitute(template.as_str(), &bindings);
            Some(ShellCommand { line, detached: false })
        },
        None => None,
    }
}

} // verus!
