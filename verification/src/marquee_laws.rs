//! What holds of resolution, whatever the configuration, the registry and
//! the disk: the image exists, extension order and fallback order decide,
//! and nothing but the candidates is looked at.

use vstd::prelude::*;
use crate::config::Settings;
use crate::files::present_set;
use crate::marquee::{
    all_paths_set, candidate, candidates, candidates_of, collection_base, found_file, game_base,
    game_default_base, lemma_marquee_exists, lemma_probe_first, marquee_of, paths_set, probe,
    resolved, system_base, MarqueeType,
};
use crate::text::split_on;

verus! {

/// Resolution never fails and never points at a missing file: where the
/// default image exists, so does the image that any selection resolves to.
pub proof fn lemma_resolved_exists(
    marquee_type: MarqueeType,
    settings: Settings,
    systems: Map<Seq<char>, Seq<char>>,
    files: Set<Seq<char>>,
)
    requires
        settings.default_image_path is Some,
        files.contains(settings.default_image_path->0@),
    ensures
        files.contains(resolved(marquee_type, settings, systems, files)),
{
    lemma_marquee_exists(marquee_type, settings, systems, files);
}

/// Extension order decides: where the file exists under an extension and
/// under none of the extensions listed before it, that one is found,
/// whatever exists under the extensions listed after it.
pub proof fn lemma_earlier_extension_wins(
    base: Seq<char>,
    exts: Seq<Seq<char>>,
    files: Set<Seq<char>>,
    i: int,
)
    requires
        0 <= i < exts.len(),
        files.contains(candidate(base, exts[i])),
        forall|j: int| 0 <= j < i ==> !files.contains(candidate(base, #[trigger] exts[j])),
    ensures
        probe(base, exts, files) == Some(candidate(base, exts[i])),
    decreases exts.len(),
{
    if i > 0 {
        let rest = exts.drop_first();
        assert(!files.contains(candidate(base, exts[0])));
        assert(rest[i - 1] == exts[i]);
        assert forall|j: int| 0 <= j < i - 1 implies !files.contains(
            candidate(base, #[trigger] rest[j]),
        ) by {
            assert(rest[j] == exts[j + 1]);
        }
        lemma_earlier_extension_wins(base, rest, files, i - 1);
    }
}

/// A file is found for `base` exactly where one of its candidates exists.
pub proof fn lemma_found_iff_exists(base: Seq<char>, formats: Seq<char>, files: Set<Seq<char>>)
    ensures
        found_file(base, formats, files) is Some <==> exists|i: int|
            0 <= i < split_on(formats, ',').len() && files.contains(
                candidate(base, #[trigger] split_on(formats, ',')[i]),
            ),
{
    lemma_probe_first(base, split_on(formats, ','), files);
}

/// The fallback order of a game: its first location wins over its second,
/// its second over its system's marquee, and that over the default image;
/// a later one is the answer only where none before it exists.
pub proof fn lemma_game_fallback_order(
    settings: Settings,
    systems: Map<Seq<char>, Seq<char>>,
    files: Set<Seq<char>>,
    system_name: &str,
    game_name: &str,
)
    ensures
        ({
            let formats = settings.accepted_formats@;
            let first = found_file(
                game_base(settings, systems, system_name@, game_name@),
                formats,
                files,
            );
            let second = found_file(
                game_default_base(settings, systems, system_name@, game_name@),
                formats,
                files,
            );
            let third = found_file(system_base(settings, systems, system_name@), formats, files);
            let answer = resolved(
                MarqueeType::Game { system_name, game_name },
                settings,
                systems,
                files,
            );
            &&& first is Some ==> answer == first->0
            &&& first is None && second is Some ==> answer == second->0
            &&& first is None && second is None && third is Some ==> answer == third->0
            &&& first is None && second is None && third is None ==> answer
                == settings.default_image_path->0@
            &&& first is None && second is None ==> answer == resolved(
                MarqueeType::System { system_name },
                settings,
                systems,
                files,
            )
        }),
{
}

/// What a selection resolves to is one of its candidates: nothing else is
/// ever looked at or handed back.
pub proof fn lemma_resolved_is_candidate(
    marquee_type: MarqueeType,
    settings: Settings,
    systems: Map<Seq<char>, Seq<char>>,
    files: Set<Seq<char>>,
)
    ensures
        candidates(marquee_type, settings, systems).contains(
            resolved(marquee_type, settings, systems, files),
        ),
{
    let exts = split_on(settings.accepted_formats@, ',');
    let all = candidates(marquee_type, settings, systems);
    let n = exts.len() as int;
    let answer = resolved(marquee_type, settings, systems, files);
    match marquee_type {
        MarqueeType::System { system_name } => {
            let base = system_base(settings, systems, system_name@);
            lemma_probe_first(base, exts, files);
            if probe(base, exts, files) is Some {
                let i = choose|i: int|
                    0 <= i < exts.len() && answer == candidate(base, #[trigger] exts[i]);
                assert(all[i] == answer);
            } else {
                assert(all[n] == answer);
            }
        },
        MarqueeType::Game { system_name, game_name } => {
            let first = game_base(settings, systems, system_name@, game_name@);
            let second = game_default_base(settings, systems, system_name@, game_name@);
            let third = system_base(settings, systems, system_name@);
            lemma_probe_first(first, exts, files);
            lemma_probe_first(second, exts, files);
            lemma_probe_first(third, exts, files);
            if probe(first, exts, files) is Some {
                let i = choose|i: int|
                    0 <= i < exts.len() && answer == candidate(first, #[trigger] exts[i]);
                assert(all[i] == answer);
            } else if probe(second, exts, files) is Some {
                let i = choose|i: int|
                    0 <= i < exts.len() && answer == candidate(second, #[trigger] exts[i]);
                assert(all[n + i] == answer);
            } else if probe(third, exts, files) is Some {
                let i = choose|i: int|
                    0 <= i < exts.len() && answer == candidate(third, #[trigger] exts[i]);
                assert(all[2 * n + i] == answer);
            } else {
                assert(all[3 * n] == answer);
            }
        },
        MarqueeType::Collection { collection_name } => {
            let base = collection_base(settings, collection_name@);
            lemma_probe_first(base, exts, files);
            if probe(base, exts, files) is Some {
                let i = choose|i: int|
                    0 <= i < exts.len() && answer == candidate(base, #[trigger] exts[i]);
                assert(all[i] == answer);
            } else {
                assert(all[n] == answer);
            }
        },
    }
}

/// Two records of the disk that agree on every candidate of `base` give the
/// same result.
pub proof fn lemma_probe_agrees(
    base: Seq<char>,
    exts: Seq<Seq<char>>,
    a: Set<Seq<char>>,
    b: Set<Seq<char>>,
)
    requires
        forall|i: int|
            0 <= i < exts.len() ==> a.contains(#[trigger] candidates_of(base, exts)[i])
                == b.contains(candidates_of(base, exts)[i]),
    ensures
        probe(base, exts, a) == probe(base, exts, b),
    decreases exts.len(),
{
    if exts.len() > 0 {
        assert(candidates_of(base, exts)[0] == candidate(base, exts[0]));
        let rest = exts.drop_first();
        assert forall|i: int| 0 <= i < rest.len() implies a.contains(
            #[trigger] candidates_of(base, rest)[i],
        ) == b.contains(candidates_of(base, rest)[i]) by {
            assert(candidates_of(base, rest)[i] == candidates_of(base, exts)[i + 1]);
        }
        lemma_probe_agrees(base, rest, a, b);
    }
}

/// Resolution looks at nothing but its candidates: two records of the disk
/// that agree on each of them resolve a selection to the same image.
pub proof fn lemma_resolution_reads_candidates(
    marquee_type: MarqueeType,
    settings: Settings,
    systems: Map<Seq<char>, Seq<char>>,
    a: Set<Seq<char>>,
    b: Set<Seq<char>>,
)
    requires
        forall|i: int|
            0 <= i < candidates(marquee_type, settings, systems).len() ==> a.contains(
                #[trigger] candidates(marquee_type, settings, systems)[i],
            ) == b.contains(candidates(marquee_type, settings, systems)[i]),
    ensures
        marquee_of(marquee_type, settings, systems, a) == marquee_of(
            marquee_type,
            settings,
            systems,
            b,
        ),
        resolved(marquee_type, settings, systems, a) == resolved(
            marquee_type,
            settings,
            systems,
            b,
        ),
{
    let exts = split_on(settings.accepted_formats@, ',');
    let all = candidates(marquee_type, settings, systems);
    let n = exts.len() as int;
    match marquee_type {
        MarqueeType::System { system_name } => {
            let base = system_base(settings, systems, system_name@);
            assert forall|i: int| 0 <= i < n implies a.contains(
                #[trigger] candidates_of(base, exts)[i],
            ) == b.contains(candidates_of(base, exts)[i]) by {
                assert(all[i] == candidates_of(base, exts)[i]);
            }
            lemma_probe_agrees(base, exts, a, b);
        },
        MarqueeType::Game { system_name, game_name } => {
            let first = game_base(settings, systems, system_name@, game_name@);
            let second = game_default_base(settings, systems, system_name@, game_name@);
            let third = system_base(settings, systems, system_name@);
            assert forall|i: int| 0 <= i < n implies a.contains(
                #[trigger] candidates_of(first, exts)[i],
            ) == b.contains(candidates_of(first, exts)[i]) by {
                assert(all[i] == candidates_of(first, exts)[i]);
            }
            assert forall|i: int| 0 <= i < n implies a.contains(
                #[trigger] candidates_of(second, exts)[i],
            ) == b.contains(candidates_of(second, exts)[i]) by {
                assert(all[n + i] == candidates_of(second, exts)[i]);
            }
            assert forall|i: int| 0 <= i < n implies a.contains(
                #[trigger] candidates_of(third, exts)[i],
            ) == b.contains(candidates_of(third, exts)[i]) by {
                assert(all[2 * n + i] == candidates_of(third, exts)[i]);
            }
            lemma_probe_agrees(first, exts, a, b);
            lemma_probe_agrees(second, exts, a, b);
            lemma_probe_agrees(third, exts, a, b);
        },
        MarqueeType::Collection { collection_name } => {
            let base = collection_base(settings, collection_name@);
            assert forall|i: int| 0 <= i < n implies a.contains(
                #[trigger] candidates_of(base, exts)[i],
            ) == b.contains(candidates_of(base, exts)[i]) by {
                assert(all[i] == candidates_of(base, exts)[i]);
            }
            lemma_probe_agrees(base, exts, a, b);
        },
    }
}

/// Looking at the candidates is enough: the record of which candidates were
/// seen to exist resolves a selection as the disk itself does.
pub proof fn lemma_probed_resolution(
    marquee_type: MarqueeType,
    settings: Settings,
    systems: Map<Seq<char>, Seq<char>>,
    disk: Set<Seq<char>>,
    present: Seq<bool>,
)
    requires
        present.len() == candidates(marquee_type, settings, systems).len(),
        forall|i: int|
            0 <= i < present.len() ==> present[i] == disk.contains(
                #[trigger] candidates(marquee_type, settings, systems)[i],
            ),
    ensures
        resolved(
            marquee_type,
            settings,
            systems,
            present_set(candidates(marquee_type, settings, systems), present),
        ) == resolved(marquee_type, settings, systems, disk),
{
    let all = candidates(marquee_type, settings, systems);
    let seen = present_set(all, present);
    assert forall|j: int| 0 <= j < all.len() implies seen.contains(#[trigger] all[j])
        == disk.contains(all[j]) by {
        if seen.contains(all[j]) {
            let i = choose|i: int|
                0 <= i < all.len() && i < present.len() && present[i] && all[i] == all[j];
            assert(disk.contains(all[i]));
        }
        if disk.contains(all[j]) {
            assert(present[j]);
        }
    }
    lemma_resolution_reads_candidates(marquee_type, settings, systems, seen, disk);
}

/// A configuration in which the default image and every directory of a
/// kind of selection are set can resolve any selection of that kind,
/// whatever is on disk.
pub proof fn lemma_all_paths_suffice(
    marquee_type: MarqueeType,
    settings: Settings,
    systems: Map<Seq<char>, Seq<char>>,
    files: Set<Seq<char>>,
)
    requires
        all_paths_set(marquee_type, settings),
    ensures
        paths_set(marquee_type, settings, systems, files),
{
}

} // verus!
