//! Resolution of a selection to the marquee image that is shown for it.
//!
//! A selection names a system, a game of a system, or a collection.  Each
//! kind has a directory and a file-name template; the file is looked for
//! under each accepted extension in turn, and the first that exists wins.  A
//! game falls back to its second location, then to its system's marquee.
//! Where nothing is found the default image is the answer.

use vstd::prelude::*;
use crate::config::{join, Config, Settings};
use crate::files::FileSet;
use crate::table::TextMap;
use crate::template::{bound, substitute, substituted, Binding};
use crate::text::{
    chars_of, extend_chars, join_path, rows, split_chars, split_on, string_of, texts, trim,
    trim_chars,
};

verus! {

/// What was selected in the frontend.
#[derive(Clone, Copy, Debug)]
pub enum MarqueeType<'a> {
    System { system_name: &'a str },
    Game { system_name: &'a str, game_name: &'a str },
    Collection { collection_name: &'a str },
}

/// The file looked for under the extension `ext`: `base`, a dot and the
/// extension without surrounding white space; `base` itself where nothing is
/// left of the extension.
pub open spec fn candidate(base: Seq<char>, ext: Seq<char>) -> Seq<char> {
    if trim(ext).len() == 0 {
        base
    } else {
        base + seq!['.'] + trim(ext)
    }
}

/// The first of the candidates of `base` under `exts`, in order, that
/// exists.
pub open spec fn probe(base: Seq<char>, exts: Seq<Seq<char>>, files: Set<Seq<char>>) -> Option<
    Seq<char>,
>
    decreases exts.len(),
{
    if exts.len() == 0 {
        None
    } else if files.contains(candidate(base, exts[0])) {
        Some(candidate(base, exts[0]))
    } else {
        probe(base, exts.drop_first(), files)
    }
}

/// The first existing candidate of `base` under the comma-separated
/// extensions `formats`.
pub open spec fn found_file(base: Seq<char>, formats: Seq<char>, files: Set<Seq<char>>) -> Option<
    Seq<char>,
> {
    probe(base, split_on(formats, ','), files)
}

/// The folder of a system: what the registry holds for it, or its own name.
pub open spec fn folder_of(systems: Map<Seq<char>, Seq<char>>, system_name: Seq<char>) -> Seq<
    char,
> {
    if systems.contains_key(system_name) {
        systems[system_name]
    } else {
        system_name
    }
}

/// Where a system's marquee is looked for, without extension.
pub open spec fn system_base(
    settings: Settings,
    systems: Map<Seq<char>, Seq<char>>,
    system_name: Seq<char>,
) -> Seq<char> {
    join_path(
        settings.system_marquee_path->0@,
        substituted(
            settings.system_file_path@,
            seq![("system_name"@, folder_of(systems, system_name))],
        ),
    )
}

/// Where a game's marquee is looked for first, without extension.
pub open spec fn game_base(
    settings: Settings,
    systems: Map<Seq<char>, Seq<char>>,
    system_name: Seq<char>,
    game_name: Seq<char>,
) -> Seq<char> {
    join_path(
        settings.marquee_image_path->0@,
        substituted(
            settings.marquee_file_path@,
            seq![("system_name"@, folder_of(systems, system_name)), ("game_name"@, game_name)],
        ),
    )
}

/// Where a game's marquee is looked for second, without extension.
pub open spec fn game_default_base(
    settings: Settings,
    systems: Map<Seq<char>, Seq<char>>,
    system_name: Seq<char>,
    game_name: Seq<char>,
) -> Seq<char> {
    join_path(
        settings.marquee_image_path_default->0@,
        substituted(
            settings.marquee_file_path_default@,
            seq![("system_name"@, folder_of(systems, system_name)), ("game_name"@, game_name)],
        ),
    )
}

/// Where a collection's marquee is looked for, without extension.
pub open spec fn collection_base(settings: Settings, collection_name: Seq<char>) -> Seq<char> {
    join_path(
        settings.collection_marquee_path->0@,
        substituted(settings.collection_file_path@, seq![("collection_name"@, collection_name)]),
    )
}

/// The marquee of a system, if one exists.
pub open spec fn system_marquee(
    settings: Settings,
    systems: Map<Seq<char>, Seq<char>>,
    files: Set<Seq<char>>,
    system_name: Seq<char>,
) -> Option<Seq<char>> {
    found_file(system_base(settings, systems, system_name), settings.accepted_formats@, files)
}

/// The marquee of a game, if one exists: at its first location, else at its
/// second, else that of its system.
pub open spec fn game_marquee(
    settings: Settings,
    systems: Map<Seq<char>, Seq<char>>,
    files: Set<Seq<char>>,
    system_name: Seq<char>,
    game_name: Seq<char>,
) -> Option<Seq<char>> {
    let first = found_file(
        game_base(settings, systems, system_name, game_name),
        settings.accepted_formats@,
        files,
    );
    let second = found_file(
        game_default_base(settings, systems, system_name, game_name),
        settings.accepted_formats@,
        files,
    );
    if first is Some {
        first
    } else if second is Some {
        second
    } else {
        system_marquee(settings, systems, files, system_name)
    }
}

/// The marquee of a collection, if one exists.
pub open spec fn collection_marquee(
    settings: Settings,
    files: Set<Seq<char>>,
    collection_name: Seq<char>,
) -> Option<Seq<char>> {
    found_file(collection_base(settings, collection_name), settings.accepted_formats@, files)
}

/// The marquee of a selection, if one exists.
pub open spec fn marquee_of(
    marquee_type: MarqueeType,
    settings: Settings,
    systems: Map<Seq<char>, Seq<char>>,
    files: Set<Seq<char>>,
) -> Option<Seq<char>> {
    match marquee_type {
        MarqueeType::System { system_name } => system_marquee(
            settings,
            systems,
            files,
            system_name@,
        ),
        MarqueeType::Game { system_name, game_name } => game_marquee(
            settings,
            systems,
            files,
            system_name@,
            game_name@,
        ),
        MarqueeType::Collection { collection_name } => collection_marquee(
            settings,
            files,
            collection_name@,
        ),
    }
}

/// What was found, or the default image where nothing was.
pub open spec fn or_default(found: Option<Seq<char>>, settings: Settings) -> Seq<char> {
    match found {
        Some(path) => path,
        None => settings.default_image_path->0@,
    }
}

/// The image shown for a selection: its marquee, or the default image.
pub open spec fn resolved(
    marquee_type: MarqueeType,
    settings: Settings,
    systems: Map<Seq<char>, Seq<char>>,
    files: Set<Seq<char>>,
) -> Seq<char> {
    or_default(marquee_of(marquee_type, settings, systems, files), settings)
}

/// Whether a game's resolution has every directory it comes to look in.
pub open spec fn game_paths_set(
    settings: Settings,
    systems: Map<Seq<char>, Seq<char>>,
    files: Set<Seq<char>>,
    system_name: Seq<char>,
    game_name: Seq<char>,
) -> bool {
    &&& settings.marquee_image_path is Some
    &&& found_file(
        game_base(settings, systems, system_name, game_name),
        settings.accepted_formats@,
        files,
    ) is None ==> {
        &&& settings.marquee_image_path_default is Some
        &&& found_file(
            game_default_base(settings, systems, system_name, game_name),
            settings.accepted_formats@,
            files,
        ) is None ==> settings.system_marquee_path is Some
    }
}

/// Whether the resolution of a selection has the default image and every
/// directory it comes to look in.
pub open spec fn paths_set(
    marquee_type: MarqueeType,
    settings: Settings,
    systems: Map<Seq<char>, Seq<char>>,
    files: Set<Seq<char>>,
) -> bool {
    &&& settings.default_image_path is Some
    &&& match marquee_type {
        MarqueeType::System { system_name } => settings.system_marquee_path is Some,
        MarqueeType::Game { system_name, game_name } => game_paths_set(
            settings,
            systems,
            files,
            system_name@,
            game_name@,
        ),
        MarqueeType::Collection { collection_name } => settings.collection_marquee_path is Some,
    }
}

/// The file looked for under the extension `ext`.
pub fn candidate_chars(base: &Vec<char>, ext: &Vec<char>) -> (path: Vec<char>)
    ensures
        path@ == candidate(base@, ext@),
{
    let e = trim_chars(ext);
    let mut path: Vec<char> = Vec::new();
    extend_chars(&mut path, base);
    if e.len() > 0 {
        path.push('.');
        extend_chars(&mut path, &e);
    }
    proof {
        assert(path@ =~= candidate(base@, ext@));
    }
    path
}

/// What is found at each step of `probe` is a candidate that exists, and no
/// candidate under an earlier extension does; nothing is found only where no
/// candidate exists.
pub proof fn lemma_probe_first(base: Seq<char>, exts: Seq<Seq<char>>, files: Set<Seq<char>>)
    ensures
        match probe(base, exts, files) {
            Some(path) => exists|i: int|
                0 <= i < exts.len() && path == candidate(base, #[trigger] exts[i])
                    && files.contains(path) && forall|j: int|
                    0 <= j < i ==> !files.contains(candidate(base, #[trigger] exts[j])),
            None => forall|i: int|
                0 <= i < exts.len() ==> !files.contains(candidate(base, #[trigger] exts[i])),
        },
    decreases exts.len(),
{
    if exts.len() == 0 {
    } else if files.contains(candidate(base, exts[0])) {
        assert(probe(base, exts, files) == Some(candidate(base, exts[0])));
    } else {
        let rest = exts.drop_first();
        lemma_probe_first(base, rest, files);
        match probe(base, rest, files) {
            Some(path) => {
                let i = choose|i: int|
                    0 <= i < rest.len() && path == candidate(base, #[trigger] rest[i])
                        && files.contains(path) && forall|j: int|
                        0 <= j < i ==> !files.contains(candidate(base, #[trigger] rest[j]));
                assert(rest[i] == exts[i + 1]);
                assert forall|j: int| 0 <= j < i + 1 implies !files.contains(
                    candidate(base, #[trigger] exts[j]),
                ) by {
                    if j > 0 {
                        assert(exts[j] == rest[j - 1]);
                    }
                }
                assert(path == candidate(base, exts[i + 1]));
            },
            None => {
                assert forall|i: int| 0 <= i < exts.len() implies !files.contains(
                    candidate(base, #[trigger] exts[i]),
                ) by {
                    if i > 0 {
                        assert(exts[i] == rest[i - 1]);
                    }
                }
            },
        }
    }
}

/// Looks for `base_path` under each of the comma-separated extensions
/// `accepted_formats`, in order, and gives the first that exists.
pub fn find_file(base_path: &str, accepted_formats: &str, files: &FileSet) -> (found: Option<
    String,
>)
    ensures
        found is Some == found_file(base_path@, accepted_formats@, files@) is Some,
        found is Some ==> Some(found->0@) == found_file(base_path@, accepted_formats@, files@),
{
    let base = chars_of(base_path);
    let formats = chars_of(accepted_formats);
    let exts = split_chars(&formats, ',');
    let ghost all = rows(exts@);
    let mut i: usize = 0;
    proof {
        assert(all.subrange(0, all.len() as int) =~= all);
    }
    while i < exts.len()
        invariant
            i <= exts.len(),
            all == rows(exts@),
            all == split_on(accepted_formats@, ','),
            base@ == base_path@,
            probe(base@, all, files@) == probe(
                base@,
                all.subrange(i as int, all.len() as int),
                files@,
            ),
        decreases exts.len() - i,
    {
        let path = candidate_chars(&base, &exts[i]);
        proof {
            let rest = all.subrange(i as int, all.len() as int);
            assert(rest[0] == exts@[i as int]@);
            assert(rest.drop_first() =~= all.subrange(i + 1, all.len() as int));
        }
        if files.contains_chars(&path) {
            return Some(string_of(&path));
        }
        i += 1;
    }
    None
}

/// The folder of a system: what the registry holds for it, or its own name.
pub fn system_folder(system_name: &str, systems: &TextMap) -> (folder: String)
    ensures
        folder@ == folder_of(systems@, system_name@),
{
    match systems.get(system_name) {
        Some(folder) => folder,
        None => system_name.to_owned(),
    }
}

/// Where a system's marquee is looked for, without extension.
pub fn system_base_path(system_name: &str, config: &Config, systems: &TextMap) -> (base: String)
    requires
        config.settings.system_marquee_path is Some,
    ensures
        base@ == system_base(config.settings, systems@, system_name@),
{
    let folder = system_folder(system_name, systems);
    let mut bindings: Vec<Binding> = Vec::new();
    bindings.push(Binding::new("system_name", folder.as_str()));
    proof {
        assert(bound(bindings@) =~= seq![("system_name"@, folder@)]);
    }
    let name = substitute(config.settings.system_file_path.as_str(), &bindings);
    match &config.settings.system_marquee_path {
        Some(dir) => join(dir.as_str(), name.as_str()),
        None => name,
    }
}

/// The file name of a game's marquee under `template`.
fn game_file_name(template: &str, system_name: &str, game_name: &str, systems: &TextMap) -> (name:
    String)
    ensures
        name@ == substituted(
            template@,
            seq![("system_name"@, folder_of(systems@, system_name@)), ("game_name"@, game_name@)],
        ),
{
    let folder = system_folder(system_name, systems);
    let mut bindings: Vec<Binding> = Vec::new();
    bindings.push(Binding::new("system_name", folder.as_str()));
    bindings.push(Binding::new("game_name", game_name));
    proof {
        assert(bound(bindings@) =~= seq![
            ("system_name"@, folder@),
            ("game_name"@, game_name@),
        ]);
    }
    substitute(template, &bindings)
}

/// Where a game's marquee is looked for first, without extension.
pub fn game_base_path(system_name: &str, game_name: &str, config: &Config, systems: &TextMap) -> (base:
    String)
    requires
        config.settings.marquee_image_path is Some,
    ensures
        base@ == game_base(config.settings, systems@, system_name@, game_name@),
{
    let name = game_file_name(
        config.settings.marquee_file_path.as_str(),
        system_name,
        game_name,
        systems,
    );
    match &config.settings.marquee_image_path {
        Some(dir) => join(dir.as_str(), name.as_str()),
        None => name,
    }
}

/// Where a game's marquee is looked for second, without extension.
pub fn game_default_base_path(
    system_name: &str,
    game_name: &str,
    config: &Config,
    systems: &TextMap,
) -> (base: String)
    requires
        config.settings.marquee_image_path_default is Some,
    ensures
        base@ == game_default_base(config.settings, systems@, system_name@, game_name@),
{
    let name = game_file_name(
        config.settings.marquee_file_path_default.as_str(),
        system_name,
        game_name,
        systems,
    );
    match &config.settings.marquee_image_path_default {
        Some(dir) => join(dir.as_str(), name.as_str()),
        None => name,
    }
}

/// Where a collection's marquee is looked for, without extension.
pub fn collection_base_path(collection_name: &str, config: &Config) -> (base: String)
    requires
        config.settings.collection_marquee_path is Some,
    ensures
        base@ == collection_base(config.settings, collection_name@),
{
    let mut bindings: Vec<Binding> = Vec::new();
    bindings.push(Binding::new("collection_name", collection_name));
    proof {
        assert(bound(bindings@) =~= seq![("collection_name"@, collection_name@)]);
    }
    let name = substitute(config.settings.collection_file_path.as_str(), &bindings);
    match &config.settings.collection_marquee_path {
        Some(dir) => join(dir.as_str(), name.as_str()),
        None => name,
    }
}

/// The marquee of a system, if one exists.
pub fn find_system_marquee(
    system_name: &str,
    config: &Config,
    systems: &TextMap,
    files: &FileSet,
) -> (found: Option<String>)
    requires
        config.settings.system_marquee_path is Some,
    ensures
        found is Some == system_marquee(config.settings, systems@, files@, system_name@) is Some,
        found is Some ==> Some(found->0@) == system_marquee(
            config.settings,
            systems@,
            files@,
            system_name@,
        ),
{
    let base = system_base_path(system_name, config, systems);
    find_file(base.as_str(), config.settings.accepted_formats.as_str(), files)
}

/// The marquee of a game, if one exists: at its first location, else at its
/// second, else that of its system.
pub fn find_game_marquee(
    system_name: &str,
    game_name: &str,
    config: &Config,
    systems: &TextMap,
    files: &FileSet,
) -> (found: Option<String>)
    requires
        game_paths_set(config.settings, systems@, files@, system_name@, game_name@),
    ensures
        found is Some == game_marquee(
            config.settings,
            systems@,
            files@,
            system_name@,
            game_name@,
        ) is Some,
        found is Some ==> Some(found->0@) == game_marquee(
            config.settings,
            systems@,
            files@,
            system_name@,
            game_name@,
        ),
{
    let base = game_base_path(system_name, game_name, config, systems);
    let first = find_file(base.as_str(), config.settings.accepted_formats.as_str(), files);
    if first.is_some() {
        return first;
    }
    let base_default = game_default_base_path(system_name, game_name, config, systems);
    let second = find_file(
        base_default.as_str(),
        config.settings.accepted_formats.as_str(),
        files,
    );
    if second.is_some() {
        return second;
    }
    find_system_marquee(system_name, config, systems, files)
}

/// The marquee of a collection, if one exists.
pub fn find_collection_marquee(collection_name: &str, config: &Config, files: &FileSet) -> (found:
    Option<String>)
    requires
        config.settings.collection_marquee_path is Some,
    ensures
        found is Some == collection_marquee(config.settings, files@, collection_name@) is Some,
        found is Some ==> Some(found->0@) == collection_marquee(
            config.settings,
            files@,
            collection_name@,
        ),
{
    let base = collection_base_path(collection_name, config);
    find_file(base.as_str(), config.settings.accepted_formats.as_str(), files)
}

/// A marquee that was found exists.
pub proof fn lemma_marquee_exists(
    marquee_type: MarqueeType,
    settings: Settings,
    systems: Map<Seq<char>, Seq<char>>,
    files: Set<Seq<char>>,
)
    ensures
        marquee_of(marquee_type, settings, systems, files) is Some ==> files.contains(
            marquee_of(marquee_type, settings, systems, files)->0,
        ),
{
    let exts = split_on(settings.accepted_formats@, ',');
    match marquee_type {
        MarqueeType::System { system_name } => {
            lemma_probe_first(system_base(settings, systems, system_name@), exts, files);
        },
        MarqueeType::Game { system_name, game_name } => {
            lemma_probe_first(
                game_base(settings, systems, system_name@, game_name@),
                exts,
                files,
            );
            lemma_probe_first(
                game_default_base(settings, systems, system_name@, game_name@),
                exts,
                files,
            );
            lemma_probe_first(system_base(settings, systems, system_name@), exts, files);
        },
        MarqueeType::Collection { collection_name } => {
            lemma_probe_first(collection_base(settings, collection_name@), exts, files);
        },
    }
}

/// The image shown for a selection: its marquee, or the default image where
/// it has none.
pub fn find_marquee_file(
    marquee_type: MarqueeType,
    config: &Config,
    systems: &TextMap,
    files: &FileSet,
) -> (path: String)
    requires
        paths_set(marquee_type, config.settings, systems@, files@),
    ensures
        path@ == resolved(marquee_type, config.settings, systems@, files@),
        files@.contains(config.settings.default_image_path->0@) ==> files@.contains(path@),
{
    proof {
        lemma_marquee_exists(marquee_type, config.settings, systems@, files@);
    }
    let found = match marquee_type {
        MarqueeType::System { system_name } => find_system_marquee(
            system_name,
            config,
            systems,
            files,
        ),
        MarqueeType::Game { system_name, game_name } => find_game_marquee(
            system_name,
            game_name,
            config,
            systems,
            files,
        ),
        MarqueeType::Collection { collection_name } => find_collection_marquee(
            collection_name,
            config,
            files,
        ),
    };
    match found {
        Some(path) => path,
        None => match &config.settings.default_image_path {
            Some(default_path) => default_path.clone(),
            None => String::new(),
        },
    }
}

/// The candidates of `base` under each of `exts`, in order.
pub open spec fn candidates_of(base: Seq<char>, exts: Seq<Seq<char>>) -> Seq<Seq<char>> {
    exts.map_values(|e: Seq<char>| candidate(base, e))
}

/// Every path that the resolution of a selection may look at, in the order
/// in which it does, ending with the default image.
pub open spec fn candidates(
    marquee_type: MarqueeType,
    settings: Settings,
    systems: Map<Seq<char>, Seq<char>>,
) -> Seq<Seq<char>> {
    let exts = split_on(settings.accepted_formats@, ',');
    let own = match marquee_type {
        MarqueeType::System { system_name } => candidates_of(
            system_base(settings, systems, system_name@),
            exts,
        ),
        MarqueeType::Game { system_name, game_name } => candidates_of(
            game_base(settings, systems, system_name@, game_name@),
            exts,
        ) + candidates_of(game_default_base(settings, systems, system_name@, game_name@), exts)
            + candidates_of(system_base(settings, systems, system_name@), exts),
        MarqueeType::Collection { collection_name } => candidates_of(
            collection_base(settings, collection_name@),
            exts,
        ),
    };
    own.push(settings.default_image_path->0@)
}

/// Whether the default image and every directory that a selection of this
/// kind can be looked for in are set.
pub open spec fn all_paths_set(marquee_type: MarqueeType, settings: Settings) -> bool {
    &&& settings.default_image_path is Some
    &&& match marquee_type {
        MarqueeType::System { system_name } => settings.system_marquee_path is Some,
        MarqueeType::Game { system_name, game_name } => {
            &&& settings.marquee_image_path is Some
            &&& settings.marquee_image_path_default is Some
            &&& settings.system_marquee_path is Some
        },
        MarqueeType::Collection { collection_name } => settings.collection_marquee_path is Some,
    }
}

/// Whether the default image and every directory that a selection of this
/// kind can be looked for in are set.
pub fn has_all_paths(marquee_type: MarqueeType, config: &Config) -> (set: bool)
    ensures
        set == all_paths_set(marquee_type, config.settings),
{
    config.settings.default_image_path.is_some() && match marquee_type {
        MarqueeType::System { system_name } => config.settings.system_marquee_path.is_some(),
        MarqueeType::Game { system_name, game_name } => {
            config.settings.marquee_image_path.is_some()
                && config.settings.marquee_image_path_default.is_some()
                && config.settings.system_marquee_path.is_some()
        },
        MarqueeType::Collection { collection_name } => {
            config.settings.collection_marquee_path.is_some()
        },
    }
}

/// Appends the candidates of `base_path` under each of the comma-separated
/// extensions `accepted_formats`.
pub fn push_candidates(out: &mut Vec<String>, base_path: &str, accepted_formats: &str)
    ensures
        texts(final(out)@) == texts(old(out)@) + candidates_of(
            base_path@,
            split_on(accepted_formats@, ','),
        ),
{
    let base = chars_of(base_path);
    let formats = chars_of(accepted_formats);
    let exts = split_chars(&formats, ',');
    let ghost all = candidates_of(base_path@, split_on(accepted_formats@, ','));
    let mut i: usize = 0;
    proof {
        assert(texts(out@) =~= texts(old(out)@) + all.take(0));
    }
    while i < exts.len()
        invariant
            i <= exts.len(),
            base@ == base_path@,
            rows(exts@) == split_on(accepted_formats@, ','),
            all == candidates_of(base_path@, split_on(accepted_formats@, ',')),
            texts(out@) == texts(old(out)@) + all.take(i as int),
        decreases exts.len() - i,
    {
        let path = candidate_chars(&base, &exts[i]);
        let ghost before = texts(out@);
        out.push(string_of(&path));
        proof {
            assert(rows(exts@)[i as int] == exts@[i as int]@);
            assert(texts(out@) =~= before.push(path@));
            assert(all.take(i + 1) =~= all.take(i as int).push(path@));
            assert(texts(out@) =~= texts(old(out)@) + all.take(i + 1));
        }
        i += 1;
    }
    proof {
        assert(all.take(exts.len() as int) =~= all);
    }
}

/// Every path that the resolution of a selection may look at, in the order
/// in which it does, ending with the default image.
pub fn candidate_paths(marquee_type: MarqueeType, config: &Config, systems: &TextMap) -> (paths:
    Vec<String>)
    requires
        all_paths_set(marquee_type, config.settings),
    ensures
        texts(paths@) == candidates(marquee_type, config.settings, systems@),
{
    let mut paths: Vec<String> = Vec::new();
    let formats = config.settings.accepted_formats.as_str();
    proof {
        assert(texts(paths@) =~= Seq::<Seq<char>>::empty());
    }
    match marquee_type {
        MarqueeType::System { system_name } => {
            let base = system_base_path(system_name, config, systems);
            push_candidates(&mut paths, base.as_str(), formats);
        },
        MarqueeType::Game { system_name, game_name } => {
            let first = game_base_path(system_name, game_name, config, systems);
            push_candidates(&mut paths, first.as_str(), formats);
            let second = game_default_base_path(system_name, game_name, config, systems);
            push_candidates(&mut paths, second.as_str(), formats);
            let third = system_base_path(system_name, config, systems);
            push_candidates(&mut paths, third.as_str(), formats);
        },
        MarqueeType::Collection { collection_name } => {
            let base = collection_base_path(collection_name, config);
            push_candidates(&mut paths, base.as_str(), formats);
        },
    }
    let ghost before = texts(paths@);
    match &config.settings.default_image_path {
        Some(default_path) => {
            paths.push(default_path.clone());
        },
        None => {},
    }
    proof {
        assert(texts(paths@) =~= before.push(config.settings.default_image_path->0@));
        assert(texts(paths@) =~= candidates(marquee_type, config.settings, systems@));
    }
    paths
}

} // verus!
