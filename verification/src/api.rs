//! The records of the achievements service and the requests made of it.

use vstd::prelude::*;
use crate::text::{
    chars_of, decimal, extend_chars, pair_texts, push_decimal, push_text, same_text, string_of,
};

verus! {

/// A user of the achievements service.
#[derive(Clone, Debug)]
pub struct UserProfile {
    pub user: String,
    pub user_pic: String,
}

/// One achievement of a game.
#[derive(Clone, Debug)]
pub struct Achievement {
    pub title: String,
    pub description: String,
    pub points: u32,
    pub badge_name: String,
}

/// A game and how far the user has come in it.  The achievements are kept
/// with their identifiers, in the order in which they are reported.
#[derive(Clone, Debug)]
pub struct GameInfoAndUserProgress {
    pub title: String,
    pub game_icon: String,
    pub achievements: Vec<(String, Achievement)>,
    pub num_awarded_to_user: u32,
    pub user_completion: String,
}

impl GameInfoAndUserProgress {
    /// Whether no identifier stands for two achievements.
    pub open spec fn well_formed(self) -> bool {
        forall|i: int, j: int|
            0 <= i < j < self.achievements@.len() ==> self.achievements@[i].0@
                != self.achievements@[j].0@
    }

    /// Whether no identifier stands for two achievements.
    pub fn is_well_formed(&self) -> (ok: bool)
        ensures
            ok == self.well_formed(),
    {
        let n = self.achievements.len();
        let mut j: usize = 0;
        while j < n
            invariant
                n == self.achievements.len(),
                j <= n,
                forall|a: int, b: int|
                    0 <= a < b < j ==> self.achievements@[a].0@ != self.achievements@[b].0@,
            decreases n - j,
        {
            let mut i: usize = 0;
            while i < j
                invariant
                    n == self.achievements.len(),
                    i <= j < n,
                    forall|a: int| 0 <= a < i ==> self.achievements@[a].0@ != self.achievements@[j as int].0@,
                decreases j - i,
            {
                if same_text(self.achievements[i].0.as_str(), self.achievements[j].0.as_str()) {
                    return false;
                }
                i += 1;
            }
            j += 1;
        }
        true
    }
}

/// A request to the service: the endpoint, the query parameters in order,
/// and the key under which the answer is cached.
#[derive(Clone, Debug)]
pub struct ApiRequest {
    pub endpoint: String,
    pub params: Vec<(String, String)>,
    pub cache_key: String,
}

/// The address of an endpoint of the service.
pub fn endpoint_url(endpoint: &str) -> (url: String)
    ensures
        url@ == "https://retroachievements.org/API/"@ + endpoint@,
{
    let mut chars = chars_of("https://retroachievements.org/API/");
    push_text(&mut chars, endpoint);
    string_of(&chars)
}

/// The file in which the answer cached under `cache_key` is kept.
pub fn cache_file_name(cache_key: &str) -> (name: String)
    ensures
        name@ == cache_key@ + ".json"@,
{
    let mut chars = chars_of(cache_key);
    push_text(&mut chars, ".json");
    string_of(&chars)
}

/// The request for the profile of `user`.
pub fn user_profile_request(user: &str) -> (request: ApiRequest)
    ensures
        request.endpoint@ == "API_GetUserProfile.php"@,
        pair_texts(request.params@) == seq![("u"@, user@)],
        request.cache_key@ == "API_GetUserProfile.php_user"@ + user@,
{
    let mut key = chars_of("API_GetUserProfile.php_user");
    push_text(&mut key, user);
    let mut params: Vec<(String, String)> = Vec::new();
    params.push(("u".to_owned(), user.to_owned()));
    proof {
        assert(pair_texts(params@) =~= seq![("u"@, user@)]);
    }
    ApiRequest {
        endpoint: "API_GetUserProfile.php".to_owned(),
        params,
        cache_key: string_of(&key),
    }
}

/// The request for a game and the progress of `user` in it.
pub fn game_info_request(game_id: u32, user: &str) -> (request: ApiRequest)
    ensures
        request.endpoint@ == "API_GetGameInfoAndUserProgress.php"@,
        pair_texts(request.params@) == seq![("g"@, decimal(game_id as nat)), ("u"@, user@)],
        request.cache_key@ == "API_GetGameInfoAndUserProgress.php_game"@ + decimal(game_id as nat),
{
    let mut id: Vec<char> = Vec::new();
    push_decimal(&mut id, game_id as u64);
    let mut key = chars_of("API_GetGameInfoAndUserProgress.php_game");
    extend_chars(&mut key, &id);
    let mut params: Vec<(String, String)> = Vec::new();
    params.push(("g".to_owned(), string_of(&id)));
    params.push(("u".to_owned(), user.to_owned()));
    proof {
        assert(id@ =~= decimal(game_id as nat));
        assert(pair_texts(params@) =~= seq![("g"@, decimal(game_id as nat)), ("u"@, user@)]);
    }
    ApiRequest {
        endpoint: "API_GetGameInfoAndUserProgress.php".to_owned(),
        params,
        cache_key: string_of(&key),
    }
}

/// The parameters sent for a request that is not answered from the cache:
/// its own, then the account's name under `z` and its key under `y`.
pub fn signed_params(params: &Vec<(String, String)>, username: &str, api_key: &str) -> (all: Vec<
    (String, String),
>)
    ensures
        pair_texts(all@) == pair_texts(params@) + seq![("z"@, username@), ("y"@, api_key@)],
{
    let mut all: Vec<(String, String)> = Vec::new();
    let mut i: usize = 0;
    proof {
        assert(pair_texts(all@) =~= pair_texts(params@).take(0));
    }
    while i < params.len()
        invariant
            i <= params.len(),
            pair_texts(all@) == pair_texts(params@).take(i as int),
        decreases params.len() - i,
    {
        let ghost before = pair_texts(all@);
        all.push((params[i].0.clone(), params[i].1.clone()));
        i += 1;
        proof {
            assert(pair_texts(all@) =~= before.push((params@[i - 1].0@, params@[i - 1].1@)));
            assert(pair_texts(all@) =~= pair_texts(params@).take(i as int));
        }
    }
    let ghost before = pair_texts(all@);
    all.push(("z".to_owned(), username.to_owned()));
    all.push(("y".to_owned(), api_key.to_owned()));
    proof {
        assert(pair_texts(params@).take(params.len() as int) =~= pair_texts(params@));
        assert(pair_texts(all@) =~= before + seq![("z"@, username@), ("y"@, api_key@)]);
    }
    all
}

} // verus!
