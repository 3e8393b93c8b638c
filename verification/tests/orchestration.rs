use marquee_manager::config::{Commands, Config, Settings};
use marquee_manager::events::{
    apply_signal, decode_signal, handle_event, lookup, read_signal, signal_file_name,
    watch_action, WatchAction, WatchEvent,
};
use marquee_manager::files::FileSet;
use marquee_manager::generator::{
    after_generation, autogen_marquee, find_fanart_file, find_logo_file, source_paths,
};
use marquee_manager::keyboard::{dispatch, HotkeyAction, KeyboardEvent};
use marquee_manager::marquee::MarqueeType;
use marquee_manager::process::{
    kill_media_player, launch_media_player, shell_arguments, update_marquee, PlayerEvent,
    PlayerState,
};
use marquee_manager::state::AppState;
use marquee_manager::table::TextMap;

fn config() -> Config {
    let mut settings = Settings::with_defaults();
    settings.accepted_formats = "png,jpg".to_string();
    settings.default_image_path = Some("/img/default.png".to_string());
    settings.marquee_image_path = Some("/img".to_string());
    settings.marquee_image_path_default = Some("/roms".to_string());
    settings.system_marquee_path = Some("/logos".to_string());
    settings.collection_marquee_path = Some("/collections".to_string());
    settings.roms_path = Some("/roms".to_string());
    settings.mpv_path = Some("/opt/mpv".to_string());
    settings.im_path = Some("/opt/convert".to_string());
    settings.ipc_channel = "/tmp/mpv".to_string();
    let mut commands = TextMap::new();
    commands.insert("game-selected", "echo loadfile \"{marquee_file}\" > {IPCChannel}");
    Config { settings, commands: Commands { commands } }
}

fn files(paths: &[&str]) -> FileSet {
    let mut set = FileSet::new();
    for p in paths {
        set.insert(p);
    }
    set
}

fn registry() -> TextMap {
    let mut systems = TextMap::new();
    systems.insert("nes", "Nintendo Entertainment System");
    systems
}

#[test]
fn kill_is_the_configured_command() {
    let cfg = config();
    let command = kill_media_player(&cfg);
    assert_eq!(command.line, "taskkill /IM mpv.exe /F");
    assert!(!command.detached);
}

#[test]
fn launch_kills_first() {
    let cfg = config();
    let commands = launch_media_player(&cfg);
    assert_eq!(commands.len(), 2);
    assert_eq!(commands[0].line, "taskkill /IM mpv.exe /F");
    assert!(!commands[0].detached);
    assert_eq!(
        commands[1].line,
        "\"/opt/mpv\" --input-ipc-server=/tmp/mpv --screen=1 --no-border --ontop --autofit-larger=100%x100% \"/img/default.png\""
    );
    assert!(commands[1].detached);
}

#[test]
fn launch_renders_the_screen_number() {
    let mut cfg = config();
    cfg.settings.screen_number = -12;
    cfg.settings.mpv_launch_command = "{ScreenNumber}|{ScreenNumber}|{Other}".to_string();
    assert_eq!(launch_media_player(&cfg)[1].line, "-12|-12|{Other}");
}

#[test]
fn player_state_follows_the_last_event() {
    assert_eq!(PlayerState::Stopped.next(PlayerEvent::Launched), PlayerState::Running);
    assert_eq!(PlayerState::Running.next(PlayerEvent::Launched), PlayerState::Running);
    assert_eq!(PlayerState::Running.next(PlayerEvent::Killed), PlayerState::Stopped);
    assert_eq!(PlayerState::Stopped.next(PlayerEvent::Killed), PlayerState::Stopped);
    assert_eq!(PlayerState::Running.next(PlayerEvent::LaunchFailed), PlayerState::Stopped);
}

#[test]
fn update_substitutes_path_and_channel() {
    let cfg = config();
    let command = update_marquee("/img/a.png", &cfg).unwrap();
    assert_eq!(command.line, "echo loadfile \"/img/a.png\" > /tmp/mpv");
    assert!(!command.detached);
}

#[test]
fn update_without_template_does_nothing() {
    let mut cfg = config();
    cfg.commands.commands = TextMap::new();
    cfg.commands.commands.insert("system-selected", "echo {marquee_file}");
    assert!(update_marquee("/img/a.png", &cfg).is_none());
}

#[test]
fn signal_decoding_percent_and_plus() {
    let signal = read_signal("event=game-selected&param1=a%20b&param2=c+d%26e");
    assert_eq!(signal.event, "game-selected");
    assert_eq!(signal.param1, "a b");
    assert_eq!(signal.param2, "c d&e");
}

#[test]
fn signal_decoding_defaults_and_duplicates() {
    let signal = read_signal("param1=x&event=one&event=two");
    assert_eq!(signal.event, "two");
    assert_eq!(signal.param1, "x");
    assert_eq!(signal.param2, "");
    let empty = read_signal("");
    assert_eq!(empty.event, "");
    let pairs = vec![
        ("event".to_string(), "a".to_string()),
        ("other".to_string(), "b".to_string()),
        ("event".to_string(), "c".to_string()),
    ];
    assert_eq!(lookup(&pairs, "event"), "c");
    assert_eq!(lookup(&pairs, "other"), "b");
    assert_eq!(lookup(&pairs, "missing"), "");
    assert_eq!(decode_signal(&pairs).event, "c");
}

#[test]
fn signal_request_by_event() {
    let game = read_signal("event=game-selected&param1=snes&param2=mario");
    assert!(matches!(
        game.request(),
        Some(MarqueeType::Game { system_name: "snes", game_name: "mario" })
    ));
    let system = read_signal("event=system-selected&param1=snes&param2=mario");
    assert!(matches!(system.request(), Some(MarqueeType::System { system_name: "snes" })));
    assert!(read_signal("event=quit&param1=snes").request().is_none());
    assert!(read_signal("event=Game-Selected").request().is_none());
}

#[test]
fn game_selected_falls_through_to_the_system_marquee() {
    let cfg = config();
    let set = files(&["/logos/Nintendo Entertainment System.png", "/img/default.png"]);
    let mut state = AppState::new();
    let command = handle_event(
        "event=game-selected&param1=nes&param2=zelda1",
        &cfg,
        &registry(),
        &mut state,
        &set,
    )
    .unwrap();
    assert_eq!(
        command.line,
        "echo loadfile \"/logos/Nintendo Entertainment System.png\" > /tmp/mpv"
    );
    assert_eq!(state.current_game, Some(("nes".to_string(), "zelda1".to_string())));
}

#[test]
fn system_selected_without_registry_entry_uses_the_default() {
    let cfg = config();
    let set = files(&["/img/default.png"]);
    let mut state = AppState::new();
    state.select("snes", "mario");
    let command =
        handle_event("event=system-selected&param1=arcade", &cfg, &registry(), &mut state, &set)
            .unwrap();
    assert_eq!(command.line, "echo loadfile \"/img/default.png\" > /tmp/mpv");
    assert_eq!(state.current_game, Some(("snes".to_string(), "mario".to_string())));
    let mut fresh = AppState::default();
    let with_file = files(&["/img/default.png", "/logos/arcade.jpg"]);
    let shown = handle_event(
        "event=system-selected&param1=arcade",
        &cfg,
        &registry(),
        &mut fresh,
        &with_file,
    )
    .unwrap();
    assert_eq!(shown.line, "echo loadfile \"/logos/arcade.jpg\" > /tmp/mpv");
    assert_eq!(fresh.current_game, None);
}

#[test]
fn game_selected_records_the_selection_even_without_display_command() {
    let mut cfg = config();
    cfg.commands.commands = TextMap::new();
    let set = files(&["/img/default.png"]);
    let mut state = AppState::new();
    let command =
        handle_event("event=game-selected&param1=a&param2=b", &cfg, &registry(), &mut state, &set);
    assert!(command.is_none());
    assert_eq!(state.current_game, Some(("a".to_string(), "b".to_string())));
}

#[test]
fn other_events_are_ignored() {
    let cfg = config();
    let set = files(&["/img/default.png"]);
    let mut state = AppState::new();
    state.select("snes", "mario");
    let signal = read_signal("event=game-start&param1=a&param2=b");
    assert!(apply_signal(&signal, &cfg, &registry(), &mut state, &set).is_none());
    assert!(handle_event("", &cfg, &registry(), &mut state, &set).is_none());
    assert_eq!(state.current_game, Some(("snes".to_string(), "mario".to_string())));
}

#[test]
fn hotkeys() {
    let mut state = AppState::new();
    assert!(matches!(dispatch(KeyboardEvent::F7, &state), HotkeyAction::NothingSelected));
    state.select("snes", "mario");
    match dispatch(KeyboardEvent::F7, &state) {
        HotkeyAction::Generate { system_name, game_name } => {
            assert_eq!(system_name, "snes");
            assert_eq!(game_name, "mario");
        }
        _ => panic!("the generate key must ask for generation"),
    }
    assert!(matches!(dispatch(KeyboardEvent::F12, &state), HotkeyAction::Exit));
    for key in [
        KeyboardEvent::F6,
        KeyboardEvent::F8,
        KeyboardEvent::F9,
        KeyboardEvent::F10,
        KeyboardEvent::F11,
    ] {
        assert!(matches!(dispatch(key, &state), HotkeyAction::Placeholder));
    }
    assert_eq!(state.current_game, Some(("snes".to_string(), "mario".to_string())));
}

#[test]
fn function_keys() {
    assert_eq!(KeyboardEvent::from_function_key(5), None);
    assert_eq!(KeyboardEvent::from_function_key(6), Some(KeyboardEvent::F6));
    assert_eq!(KeyboardEvent::from_function_key(7), Some(KeyboardEvent::F7));
    assert_eq!(KeyboardEvent::from_function_key(12), Some(KeyboardEvent::F12));
    assert_eq!(KeyboardEvent::from_function_key(13), None);
    assert_eq!(KeyboardEvent::from_function_key(0), None);
}

#[test]
fn generation_needs_both_sources() {
    let cfg = config();
    let fanart = "/roms/snes/images/mario-fanart.jpg";
    let logo = "/roms/snes/images/mario-marquee.png";
    assert_eq!(find_fanart_file("snes", "mario", &cfg, &files(&[fanart])), Some(fanart.to_string()));
    assert_eq!(find_fanart_file("snes", "mario", &cfg, &files(&[logo])), None);
    assert_eq!(find_logo_file("snes", "mario", &cfg, &files(&[logo])), Some(logo.to_string()));
    assert_eq!(find_logo_file("snes", "mario", &cfg, &files(&[fanart])), None);
    assert!(autogen_marquee("snes", "mario", &cfg, &files(&[fanart])).is_none());
    assert!(autogen_marquee("snes", "mario", &cfg, &files(&[logo])).is_none());
    assert!(autogen_marquee("snes", "mario", &cfg, &FileSet::new()).is_none());
}

#[test]
fn generation_command() {
    let mut cfg = config();
    cfg.settings.im_convert_command =
        "\"{IMPath}\" \"{FanartPath}\" \"{LogoPath}\" -resize {MarqueeWidth} \"{ImgTargetPath}\""
            .to_string();
    let set = files(&["/roms/snes/images/mario-fanart.jpg", "/roms/snes/images/mario-marquee.png"]);
    let plan = autogen_marquee("snes", "mario", &cfg, &set).unwrap();
    assert_eq!(plan.target, "/img/snes-mario-generated.png");
    assert_eq!(
        plan.command.line,
        "\"/opt/convert\" \"/roms/snes/images/mario-fanart.jpg\" \"/roms/snes/images/mario-marquee.png\" -resize {MarqueeWidth} \"/img/snes-mario-generated.png\""
    );
    assert!(!plan.command.detached);
}

#[test]
fn generation_sources() {
    let cfg = config();
    assert_eq!(
        source_paths("snes", "mario", &cfg),
        vec!["/roms/snes/images/mario-fanart.jpg", "/roms/snes/images/mario-marquee.png"]
    );
}

#[test]
fn only_a_modification_is_read() {
    assert_eq!(watch_action(WatchEvent::Modified), WatchAction::ReadSignal);
    assert_eq!(watch_action(WatchEvent::Other), WatchAction::Skip);
    assert_eq!(watch_action(WatchEvent::Failed), WatchAction::LogError);
    assert_eq!(signal_file_name(), "ESEvent.arg");
}

#[test]
fn generation_is_followed_by_a_display_update() {
    let cfg = config();
    let set = files(&["/roms/snes/images/mario-fanart.jpg", "/roms/snes/images/mario-marquee.png"]);
    let plan = autogen_marquee("snes", "mario", &cfg, &set).unwrap();
    let update = after_generation(true, &plan, &cfg).unwrap();
    assert_eq!(update.line, "echo loadfile \"/img/snes-mario-generated.png\" > /tmp/mpv");
    assert!(after_generation(false, &plan, &cfg).is_none());
    let mut silent = config();
    silent.commands.commands = TextMap::new();
    assert!(after_generation(true, &plan, &silent).is_none());
}

#[test]
fn commands_go_through_the_shell() {
    let cfg = config();
    assert_eq!(
        shell_arguments(&kill_media_player(&cfg)),
        vec!["cmd", "/C", "taskkill /IM mpv.exe /F"]
    );
}
