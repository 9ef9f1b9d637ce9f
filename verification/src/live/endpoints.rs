//! The resources of the API, each as the request that fetches it.
//!
//! Every call is a read: a `GET` with no body. The name of a player goes
//! into the query as it is given.

use vstd::prelude::*;

verus! {

/// The HTTP method of a request.
#[derive(Clone, Copy, Debug, PartialEq, Eq, Structural)]
pub enum Method {
    Get,
}

/// One request: a method and the path below the base address.
#[derive(Debug)]
pub struct RequestDescriptor {
    pub method: Method,
    pub path: String,
}

/// A `GET` of `prefix` followed by `name`.
fn get_named(prefix: &str, name: &str) -> (request: RequestDescriptor)
    ensures
        request.method == Method::Get,
        request.path@ == prefix@ + name@,
{
    RequestDescriptor { method: Method::Get, path: String::from_str(prefix).concat(name) }
}

/// A `GET` of `path`.
fn get(path: &str) -> (request: RequestDescriptor)
    ensures
        request.method == Method::Get,
        request.path@ == path@,
{
    RequestDescriptor { method: Method::Get, path: String::from_str(path) }
}

/// The score line of the player named `player_name`.
pub fn player_scores(player_name: &str) -> (request: RequestDescriptor)
    ensures
        request.method == Method::Get,
        request.path@ == "/liveclientdata/playerscores?summonerName="@ + player_name@,
{
    get_named("/liveclientdata/playerscores?summonerName=", player_name)
}

/// The items of the player named `player_name`.
pub fn player_items(player_name: &str) -> (request: RequestDescriptor)
    ensures
        request.method == Method::Get,
        request.path@ == "/liveclientdata/playeritems?summonerName="@ + player_name@,
{
    get_named("/liveclientdata/playeritems?summonerName=", player_name)
}

/// All players of the match.
pub fn player_list() -> (request: RequestDescriptor)
    ensures
        request.method == Method::Get,
        request.path@ == "/liveclientdata/playerlist"@,
{
    get("/liveclientdata/playerlist")
}

/// The abilities of the active player.
pub fn active_player_abilities() -> (request: RequestDescriptor)
    ensures
        request.method == Method::Get,
        request.path@ == "/liveclientdata/activeplayerabilities"@,
{
    get("/liveclientdata/activeplayerabilities")
}

/// The runes of the active player.
pub fn active_player_runes() -> (request: RequestDescriptor)
    ensures
        request.method == Method::Get,
        request.path@ == "/liveclientdata/activeplayerrunes"@,
{
    get("/liveclientdata/activeplayerrunes")
}

/// The active player.
pub fn active_player() -> (request: RequestDescriptor)
    ensures
        request.method == Method::Get,
        request.path@ == "/liveclientdata/activeplayer"@,
{
    get("/liveclientdata/activeplayer")
}

/// The name of the active player.
pub fn active_player_name() -> (request: RequestDescriptor)
    ensures
        request.method == Method::Get,
        request.path@ == "/liveclientdata/activeplayername"@,
{
    get("/liveclientdata/activeplayername")
}

/// The state of the match.
pub fn game_stats() -> (request: RequestDescriptor)
    ensures
        request.method == Method::Get,
        request.path@ == "/liveclientdata/gamestats"@,
{
    get("/liveclientdata/gamestats")
}

/// The event feed.
pub fn event_data() -> (request: RequestDescriptor)
    ensures
        request.method == Method::Get,
        request.path@ == "/liveclientdata/eventdata"@,
{
    get("/liveclientdata/eventdata")
}

} // verus!
