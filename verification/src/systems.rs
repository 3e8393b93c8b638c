//! The registry of systems: from a system's name to the name of its folder.

use vstd::prelude::*;
use crate::table::TextMap;
use crate::text::{chars_of, rows, split_chars, split_on, string_of};

verus! {

/// A system as the frontend's configuration lists it.
#[derive(Clone, Debug)]
pub struct System {
    pub name: String,
    pub path: String,
    pub theme: String,
}

/// `path` without a leading `~/`.
pub open spec fn without_home(path: Seq<char>) -> Seq<char> {
    if path.len() >= 2 && path[0] == '~' && path[1] == '/' {
        path.subrange(2, path.len() as int)
    } else {
        path
    }
}

/// The last of the components that is neither empty nor a single dot;
/// nothing where there is none or where it is two dots.
pub open spec fn last_component(parts: Seq<Seq<char>>) -> Option<Seq<char>>
    decreases parts.len(),
{
    if parts.len() == 0 {
        None
    } else if parts.last().len() == 0 || parts.last() == seq!['.'] {
        last_component(parts.drop_last())
    } else if parts.last() == seq!['.', '.'] {
        None
    } else {
        Some(parts.last())
    }
}

/// The name of the folder that a system's path ends in.
pub open spec fn folder_name(path: Seq<char>) -> Option<Seq<char>> {
    last_component(split_on(without_home(path), '/'))
}

/// The registry after the systems have been entered in order: each system
/// whose path ends in a folder is bound to that folder's name, a later one
/// replacing an earlier one of the same name.
pub open spec fn registered(before: Map<Seq<char>, Seq<char>>, systems: Seq<System>) -> Map<
    Seq<char>,
    Seq<char>,
>
    decreases systems.len(),
{
    if systems.len() == 0 {
        before
    } else {
        let earlier = registered(before, systems.drop_last());
        match folder_name(systems.last().path@) {
            Some(folder) => earlier.insert(systems.last().name@, folder),
            None => earlier,
        }
    }
}

/// The name of the folder that a system's path ends in.
pub fn folder_name_of(path: &str) -> (folder: Option<String>)
    ensures
        folder is Some == folder_name(path@) is Some,
        folder is Some ==> folder->0@ == folder_name(path@)->0,
{
    let all = chars_of(path);
    let mut rest: Vec<char> = Vec::new();
    let skip: usize = if all.len() >= 2 && all[0] == '~' && all[1] == '/' {
        2
    } else {
        0
    };
    let mut k: usize = skip;
    while k < all.len()
        invariant
            skip <= k <= all.len(),
            rest@ == all@.subrange(skip as int, k as int),
        decreases all.len() - k,
    {
        rest.push(all[k]);
        k += 1;
        proof {
            assert(rest@ =~= all@.subrange(skip as int, k as int));
        }
    }
    proof {
        assert(rest@ =~= without_home(path@));
    }
    let parts = split_chars(&rest, '/');
    let ghost texts = rows(parts@);
    let mut i: usize = parts.len();
    proof {
        assert(texts.take(i as int) =~= texts);
    }
    while i > 0
        invariant
            i <= parts.len(),
            texts == rows(parts@),
            texts == split_on(without_home(path@), '/'),
            last_component(texts) == last_component(texts.take(i as int)),
        decreases i,
    {
        i -= 1;
        let part = &parts[i];
        proof {
            assert(texts.take(i + 1).drop_last() =~= texts.take(i as int));
            assert(texts.take(i + 1).last() == part@);
            assert(seq!['.'].len() == 1 && seq!['.'][0] == '.');
            assert(seq!['.', '.'].len() == 2 && seq!['.', '.'][0] == '.' && seq!['.', '.'][1] == '.');
        }
        if part.len() == 0 || (part.len() == 1 && part[0] == '.') {
            proof {
                if part.len() == 1 {
                    assert(part@ =~= seq!['.']);
                }
            }
        } else if part.len() == 2 && part[0] == '.' && part[1] == '.' {
            proof {
                assert(part@ =~= seq!['.', '.']);
            }
            return None;
        } else {
            return Some(string_of(part));
        }
    }
    None
}

/// Enters the systems into the registry, in order.
pub fn register_systems(registry: &mut TextMap, systems: &Vec<System>)
    ensures
        final(registry)@ == registered(old(registry)@, systems@),
{
    let mut i: usize = 0;
    proof {
        assert(systems@.take(0) =~= Seq::<System>::empty());
    }
    while i < systems.len()
        invariant
            i <= systems.len(),
            registry@ == registered(old(registry)@, systems@.take(i as int)),
        decreases systems.len() - i,
    {
        proof {
            assert(systems@.take(i + 1).drop_last() =~= systems@.take(i as int));
            assert(systems@.take(i + 1).last() == systems@[i as int]);
        }
        match folder_name_of(systems[i].path.as_str()) {
            Some(folder) => {
                registry.insert(systems[i].name.as_str(), folder.as_str());
            },
            None => {},
        }
        i += 1;
    }
    proof {
        assert(systems@.take(systems.len() as int) =~= systems@);
    }
}

} // verus!
