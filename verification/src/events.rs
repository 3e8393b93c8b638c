//! Decoding of the frontend's signal and the reaction to it.
//!
//! The signal is one record of query-encoded pairs.  The keys `event`,
//! `param1` and `param2` are read; where a key is given more than once the
//! last value counts, and a key that is missing reads as the empty text.
//! A system selection resolves the system's marquee; a game selection first
//! records the selection and then resolves the game's marquee; every other
//! event is ignored.

use vstd::prelude::*;
use crate::config::{Config, Settings};
use crate::files::FileSet;
use crate::marquee::{
    find_marquee_file, game_marquee, game_paths_set, or_default, system_marquee, MarqueeType,
};
use crate::process::{update_command, update_marquee, ShellCommand};
use crate::state::AppState;
use crate::table::TextMap;
use crate::text::{chars_of, pair_texts, same_chars, same_text};

verus! {

/// The pairs of names and values that a query-encoded record decodes to, in
/// the order in which the record gives them.
pub uninterp spec fn query_pairs(input: Seq<char>) -> Seq<(Seq<char>, Seq<char>)>;

/// Calls `url::form_urlencoded::parse` on the bytes of `content` and
/// collects the owned pairs it yields.  The contract only names the result:
/// the pairs are those that the record decodes to.
#[verifier::external_body]
fn parse_query(content: &str) -> (pairs: Vec<(String, String)>)
    ensures
        pair_texts(pairs@) == query_pairs(content@),
{
    url::form_urlencoded::parse(content.as_bytes()).into_owned().collect()
}

/// The value that the last pair named `key` gives; empty where there is none.
pub open spec fn value_of(pairs: Seq<(Seq<char>, Seq<char>)>, key: Seq<char>) -> Seq<char>
    decreases pairs.len(),
{
    if pairs.len() == 0 {
        Seq::<char>::empty()
    } else if pairs.last().0 == key {
        pairs.last().1
    } else {
        value_of(pairs.drop_last(), key)
    }
}

/// What the frontend signalled.
#[derive(Clone, Debug)]
pub struct Signal {
    pub event: String,
    pub param1: String,
    pub param2: String,
}

impl View for Signal {
    type V = (Seq<char>, Seq<char>, Seq<char>);

    open spec fn view(&self) -> (Seq<char>, Seq<char>, Seq<char>) {
        (self.event@, self.param1@, self.param2@)
    }
}

/// The signal that a sequence of decoded pairs carries.
pub open spec fn signal_of(pairs: Seq<(Seq<char>, Seq<char>)>) -> (Seq<char>, Seq<char>, Seq<char>) {
    (value_of(pairs, "event"@), value_of(pairs, "param1"@), value_of(pairs, "param2"@))
}

/// The value that the last pair named `key` gives; empty where there is none.
pub fn lookup(pairs: &Vec<(String, String)>, key: &str) -> (value: String)
    ensures
        value@ == value_of(pair_texts(pairs@), key@),
{
    let wanted = chars_of(key);
    let ghost all = pair_texts(pairs@);
    let mut i: usize = pairs.len();
    proof {
        assert(all.take(i as int) =~= all);
    }
    while i > 0
        invariant
            i <= pairs.len(),
            wanted@ == key@,
            all == pair_texts(pairs@),
            value_of(all, key@) == value_of(all.take(i as int), key@),
        decreases i,
    {
        proof {
            assert(all.take(i as int).drop_last() =~= all.take(i - 1));
            assert(all.take(i as int).last() == (pairs@[i - 1].0@, pairs@[i - 1].1@));
        }
        i -= 1;
        let name = chars_of(pairs[i].0.as_str());
        if same_chars(&name, &wanted) {
            return pairs[i].1.clone();
        }
    }
    String::new()
}

/// The signal that a sequence of decoded pairs carries.
pub fn decode_signal(pairs: &Vec<(String, String)>) -> (signal: Signal)
    ensures
        signal@ == signal_of(pair_texts(pairs@)),
{
    Signal {
        event: lookup(pairs, "event"),
        param1: lookup(pairs, "param1"),
        param2: lookup(pairs, "param2"),
    }
}

/// The signal that the content of the signal file carries.
pub fn read_signal(content: &str) -> (signal: Signal)
    ensures
        signal@ == signal_of(query_pairs(content@)),
{
    let pairs = parse_query(content);
    decode_signal(&pairs)
}

/// The image that a signal asks for, if it is a selection: the marquee of
/// the system in `param1`, or of the game `param2` of that system.
pub open spec fn wanted_image(
    signal: (Seq<char>, Seq<char>, Seq<char>),
    settings: Settings,
    systems: Map<Seq<char>, Seq<char>>,
    files: Set<Seq<char>>,
) -> Option<Seq<char>> {
    if signal.0 == "system-selected"@ {
        Some(or_default(system_marquee(settings, systems, files, signal.1), settings))
    } else if signal.0 == "game-selected"@ {
        Some(or_default(game_marquee(settings, systems, files, signal.1, signal.2), settings))
    } else {
        None
    }
}

/// The command that a signal leads to, if any: the display update for the
/// image it asks for.
pub open spec fn reaction(
    signal: (Seq<char>, Seq<char>, Seq<char>),
    settings: Settings,
    commands: Map<Seq<char>, Seq<char>>,
    systems: Map<Seq<char>, Seq<char>>,
    files: Set<Seq<char>>,
) -> Option<(Seq<char>, bool)> {
    match wanted_image(signal, settings, systems, files) {
        Some(path) => update_command(path, settings, commands),
        None => None,
    }
}

/// The selection after a signal: the game it selects, or what was selected
/// before where it selects none.
pub open spec fn selection_after(
    before: Option<(Seq<char>, Seq<char>)>,
    signal: (Seq<char>, Seq<char>, Seq<char>),
) -> Option<(Seq<char>, Seq<char>)> {
    if signal.0 == "game-selected"@ {
        Some((signal.1, signal.2))
    } else {
        before
    }
}

/// Whether the resolution that a signal asks for has the default image and
/// every directory it comes to look in.
pub open spec fn signal_paths_set(
    signal: (Seq<char>, Seq<char>, Seq<char>),
    settings: Settings,
    systems: Map<Seq<char>, Seq<char>>,
    files: Set<Seq<char>>,
) -> bool {
    if signal.0 == "system-selected"@ {
        settings.default_image_path is Some && settings.system_marquee_path is Some
    } else if signal.0 == "game-selected"@ {
        settings.default_image_path is Some && game_paths_set(
            settings,
            systems,
            files,
            signal.1,
            signal.2,
        )
    } else {
        true
    }
}

impl Signal {
    /// The selection that the signal makes, if it makes one.
    pub fn request(&self) -> (request: Option<MarqueeType<'_>>)
        ensures
            match request {
                Some(MarqueeType::System { system_name }) => self.event@ == "system-selected"@
                    && system_name@ == self.param1@,
                Some(MarqueeType::Game { system_name, game_name }) => self.event@
                    == "game-selected"@ && self.event@ != "system-selected"@ && system_name@
                    == self.param1@ && game_name@ == self.param2@,
                Some(MarqueeType::Collection { collection_name }) => false,
                None => self.event@ != "system-selected"@ && self.event@ != "game-selected"@,
            },
    {
        if same_text(self.event.as_str(), "system-selected") {
            Some(MarqueeType::System { system_name: self.param1.as_str() })
        } else if same_text(self.event.as_str(), "game-selected") {
            Some(
                MarqueeType::Game {
                    system_name: self.param1.as_str(),
                    game_name: self.param2.as_str(),
                },
            )
        } else {
            None
        }
    }
}

/// Reacts to a decoded signal.  A game selection is recorded in `app_state`
/// before anything else is done, so the state already holds it when the
/// display command is handed back; no other signal touches the state.  The
/// command handed back is the display update for the image that the
/// selection resolves to; there is none for other events, or where the
/// command table has no display update.
pub fn apply_signal(
    signal: &Signal,
    config: &Config,
    systems: &TextMap,
    app_state: &mut AppState,
    files: &FileSet,
) -> (command: Option<ShellCommand>)
    requires
        signal_paths_set(signal@, config.settings, systems@, files@),
    ensures
        final(app_state).selection() == selection_after(old(app_state).selection(), signal@),
        signal.event@ != "game-selected"@ ==> *final(app_state) == *old(app_state),
        command is Some == reaction(
            signal@,
            config.settings,
            config.commands.commands@,
            systems@,
            files@,
        ) is Some,
        command is Some ==> Some(command->0@) == reaction(
            signal@,
            config.settings,
            config.commands.commands@,
            systems@,
            files@,
        ),
{
    proof {
        reveal_strlit("system-selected");
        reveal_strlit("game-selected");
        assert("system-selected"@.len() != "game-selected"@.len());
    }
    match signal.request() {
        Some(request) => {
            match request {
                MarqueeType::Game { system_name, game_name } => {
                    app_state.select(system_name, game_name);
                },
                _ => {},
            }
            let marquee_file = find_marquee_file(request, config, systems, files);
            update_marquee(marquee_file.as_str(), config)
        },
        None => None,
    }
}

/// Reacts to the content of the signal file: decodes it and applies the
/// signal it carries.
pub fn handle_event(
    content: &str,
    config: &Config,
    systems: &TextMap,
    app_state: &mut AppState,
    files: &FileSet,
) -> (command: Option<ShellCommand>)
    requires
        config.settings.default_image_path is Some,
        config.settings.marquee_image_path is Some,
        config.settings.marquee_image_path_default is Some,
        config.settings.system_marquee_path is Some,
    ensures
        final(app_state).selection() == selection_after(
            old(app_state).selection(),
            signal_of(query_pairs(content@)),
        ),
        signal_of(query_pairs(content@)).0 != "game-selected"@ ==> *final(app_state) == *old(
            app_state,
        ),
        command is Some == reaction(
            signal_of(query_pairs(content@)),
            config.settings,
            config.commands.commands@,
            systems@,
            files@,
        ) is Some,
        command is Some ==> Some(command->0@) == reaction(
            signal_of(query_pairs(content@)),
            config.settings,
            config.commands.commands@,
            systems@,
            files@,
        ),
{
    let signal = read_signal(content);
    apply_signal(&signal, config, systems, app_state, files)
}

/// What the watch on the signal file delivered.
#[derive(Clone, Copy, Debug, PartialEq, Eq, Structural)]
pub enum WatchEvent {
    /// The signal file was modified.
    Modified,
    /// Anything else happened to the signal file.
    Other,
    /// The watch reported an error.
    Failed,
}

/// What the ingestor does about what the watch delivered.
#[derive(Clone, Copy, Debug, PartialEq, Eq, Structural)]
pub enum WatchAction {
    /// Read the whole signal file and react to what it holds.
    ReadSignal,
    /// Do nothing.
    Skip,
    /// Log the error and go on watching.
    LogError,
}

/// The name of the signal file, in the working directory.
pub fn signal_file_name() -> (name: String)
    ensures
        name@ == "ESEvent.arg"@,
{
    "ESEvent.arg".to_owned()
}

/// What to do about what the watch delivered: only a modification makes
/// the ingestor read the signal; an error is logged and never ends the watch.
pub fn watch_action(event: WatchEvent) -> (action: WatchAction)
    ensures
        action == match event {
            WatchEvent::Modified => WatchAction::ReadSignal,
            WatchEvent::Other => WatchAction::Skip,
            WatchEvent::Failed => WatchAction::LogError,
        },
{
    match event {
        WatchEvent::Modified => WatchAction::ReadSignal,
        WatchEvent::Other => WatchAction::Skip,
        WatchEvent::Failed => WatchAction::LogError,
    }
}

} // verus!
