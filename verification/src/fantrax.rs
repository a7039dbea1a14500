//! Fantrax data: rosters, players, and the parsers that read them out of the
//! several response shapes the Fantrax beta API returns.
use vstd::prelude::*;

use crate::json::{
    Json, array_of_opt, get, get2, get3, get_opt, json_get, json_get2, json_get3, json_get_opt,
    json_or, json_u32, object_of, opt_as_array, opt_str, opt_str_or, opt_val, or_else, first_u32,
    str_of_opt, str_or,
};
use crate::text::owned;
use crate::types::LeagueId;
use crate::types::{PlayerId, TeamId};

verus! {

/// Errors that can occur when calling the Fantrax API.
///
/// The `Http` variant carries a sanitized description only, never the
/// request URL, so that the `userSecretId` query parameter cannot leak.
#[derive(Debug)]
pub enum FantraxError {
    /// HTTP transport error (URL stripped to protect credentials).
    Http(String),
    /// The API returned a response we couldn't parse or that indicates failure.
    Api(String),
}

/// One team's roster.
#[derive(Debug)]
pub struct TeamRoster {
    pub team_id: TeamId,
    pub team_name: String,
    pub players: Vec<RosterPlayer>,
}

/// A player on a Fantrax roster.
#[derive(Debug)]
pub struct RosterPlayer {
    pub player_id: PlayerId,
    pub name: String,
    pub position: String,
    pub roster_status: String,
}

impl Clone for RosterPlayer {
    fn clone(&self) -> (r: Self)
        ensures
            r == *self,
    {
        RosterPlayer {
            player_id: self.player_id.clone(),
            name: self.name.clone(),
            position: self.position.clone(),
            roster_status: self.roster_status.clone(),
        }
    }
}

// ─── Roster parsing ────────────────────────────────────────────────────────

/// A roster player's ID: the first of `playerId`, `player_id`, `id` that is
/// present, when it is a string.
pub open spec fn roster_player_id(p: Json) -> Option<Seq<char>> {
    str_of_opt(get3(p, "playerId"@, "player_id"@, "id"@))
}

/// `rp` is the roster player read from `p`.
pub open spec fn roster_player_from(rp: RosterPlayer, p: Json) -> bool {
    &&& roster_player_id(p) == Some(rp.player_id@)
    &&& rp.name@ == str_or(get3(p, "name"@, "playerName"@, "player_name"@), "Unknown"@)
    &&& rp.position@ == str_or(get3(p, "position"@, "pos"@, "eligiblePos"@), "Unknown"@)
    &&& rp.roster_status@ == str_or(
        get3(p, "rosterStatus"@, "status"@, "roster_status"@),
        "Active"@,
    )
}

/// A roster player's status is the first of `rosterStatus`, `status`,
/// `roster_status` that the entry has, when that one is a string, and
/// "Active" when the entry has none of them; likewise the name is the first
/// of `name`, `playerName`, `player_name` ("Unknown" when none).
pub proof fn law_roster_status_source(rp: RosterPlayer, p: Json)
    requires
        roster_player_from(rp, p),
    ensures
        get(p, "rosterStatus"@) matches Some(Json::Str(s)) ==> rp.roster_status@ == s@,
        get(p, "rosterStatus"@) is None ==> (get(p, "status"@) matches Some(Json::Str(s))
            ==> rp.roster_status@ == s@),
        (get(p, "rosterStatus"@) is None && get(p, "status"@) is None) ==> (get(
            p,
            "roster_status"@,
        ) matches Some(Json::Str(s)) ==> rp.roster_status@ == s@),
        (get(p, "rosterStatus"@) is None && get(p, "status"@) is None && get(
            p,
            "roster_status"@,
        ) is None) ==> rp.roster_status@ == "Active"@,
        get(p, "name"@) matches Some(Json::Str(s)) ==> rp.name@ == s@,
        get(p, "name"@) is None ==> (get(p, "playerName"@) matches Some(Json::Str(s))
            ==> rp.name@ == s@),
        (get(p, "name"@) is None && get(p, "playerName"@) is None && get(p, "player_name"@)
            is None) ==> rp.name@ == "Unknown"@,
{
}

/// `rs` holds, in order, the players read from the entries of `src` that
/// have an ID; the others are skipped.
pub open spec fn roster_players_from(rs: Seq<RosterPlayer>, src: Seq<Json>) -> bool
    decreases src.len(),
{
    if src.len() == 0 {
        rs.len() == 0
    } else if roster_player_id(src.last()) is None {
        roster_players_from(rs, src.drop_last())
    } else {
        &&& rs.len() > 0
        &&& roster_player_from(rs.last(), src.last())
        &&& roster_players_from(rs.drop_last(), src.drop_last())
    }
}

/// A team entry's ID: `teamId`, else `team_id`, when it is a string.
pub open spec fn entry_team_id(t: Json) -> Option<Seq<char>> {
    str_of_opt(get2(t, "teamId"@, "team_id"@))
}

/// `tr` is the team roster read from `t`.
pub open spec fn team_roster_from(tr: TeamRoster, t: Json) -> bool {
    &&& entry_team_id(t) == Some(tr.team_id@)
    &&& tr.team_name@ == str_or(get3(t, "teamName"@, "team_name"@, "name"@), "Unknown"@)
    &&& match array_of_opt(get2(t, "players"@, "roster"@)) {
        Some(ps) => roster_players_from(tr.players@, ps),
        None => tr.players@.len() == 0,
    }
}

/// `ts` holds, in order, the teams read from the entries of `src` that have
/// an ID.
pub open spec fn team_rosters_from(ts: Seq<TeamRoster>, src: Seq<Json>) -> bool
    decreases src.len(),
{
    if src.len() == 0 {
        ts.len() == 0
    } else if entry_team_id(src.last()) is None {
        team_rosters_from(ts, src.drop_last())
    } else {
        &&& ts.len() > 0
        &&& team_roster_from(ts.last(), src.last())
        &&& team_rosters_from(ts.drop_last(), src.drop_last())
    }
}

/// Where a `getTeamRosters` response lists its teams: `rosters`, else
/// `teams`, else `data.rosters`, when that is an array.
pub open spec fn rosters_array(resp: Json) -> Option<Seq<Json>> {
    array_of_opt(
        or_else(get(resp, "rosters"@), or_else(get(resp, "teams"@), get_opt(get(resp, "data"@), "rosters"@))),
    )
}

/// Reads one roster player; `None` when it has no string ID.
pub fn extract_roster_player(p: &Json) -> (r: Option<RosterPlayer>)
    ensures
        match r {
            None => roster_player_id(*p) is None,
            Some(rp) => roster_player_from(rp, *p),
        },
{
    let player_id = match opt_str(json_get3(p, "playerId", "player_id", "id")) {
        Some(id) => PlayerId::new(id.as_str()),
        None => {
            return None;
        },
    };
    let name = opt_str_or(json_get3(p, "name", "playerName", "player_name"), "Unknown");
    let position = opt_str_or(json_get3(p, "position", "pos", "eligiblePos"), "Unknown");
    let roster_status = opt_str_or(
        json_get3(p, "rosterStatus", "status", "roster_status"),
        "Active",
    );
    Some(RosterPlayer { player_id, name, position, roster_status })
}

/// Reads the players of a roster array, skipping those without an ID.
pub fn extract_roster_players(src: &Vec<Json>) -> (r: Vec<RosterPlayer>)
    ensures
        roster_players_from(r@, src@),
{
    let ghost s = src@;
    let mut out: Vec<RosterPlayer> = Vec::new();
    let mut i: usize = 0;
    assert(s.take(0) =~= Seq::<Json>::empty());
    while i < src.len()
        invariant
            i <= s.len(),
            s == src@,
            roster_players_from(out@, s.take(i as int)),
        decreases s.len() - i,
    {
        assert(s.take(i + 1).drop_last() =~= s.take(i as int));
        assert(s.take(i + 1).last() == s[i as int]);
        let ghost before = out@;
        match extract_roster_player(&src[i]) {
            Some(rp) => {
                out.push(rp);
                assert(out@.drop_last() =~= before);
            },
            None => {},
        }
        i = i + 1;
    }
    assert(s.take(s.len() as int) =~= s);
    out
}

/// Reads one team of a `getTeamRosters` response; `None` when it has no
/// string ID.
pub fn parse_team_roster(t: &Json) -> (r: Option<TeamRoster>)
    ensures
        match r {
            None => entry_team_id(*t) is None,
            Some(tr) => team_roster_from(tr, *t),
        },
{
    let team_id = match opt_str(json_get2(t, "teamId", "team_id")) {
        Some(id) => TeamId::new(id.as_str()),
        None => {
            return None;
        },
    };
    let team_name = opt_str_or(json_get3(t, "teamName", "team_name", "name"), "Unknown");
    let players = match opt_as_array(json_get2(t, "players", "roster")) {
        Some(arr) => extract_roster_players(arr),
        None => Vec::new(),
    };
    Some(TeamRoster { team_id, team_name, players })
}

/// Reads the teams of a `getTeamRosters` response, trying the shapes the
/// API is known to return; no teams when none matches.
pub fn parse_team_rosters(resp: &Json) -> (r: Vec<TeamRoster>)
    ensures
        match rosters_array(*resp) {
            Some(ts) => team_rosters_from(r@, ts),
            None => r@.len() == 0,
        },
{
    let teams_value = json_or(
        json_get(resp, "rosters"),
        json_or(json_get(resp, "teams"), json_get_opt(json_get(resp, "data"), "rosters")),
    );
    let arr = match opt_as_array(teams_value) {
        Some(a) => a,
        None => {
            return Vec::new();
        },
    };
    let ghost s = arr@;
    let mut out: Vec<TeamRoster> = Vec::new();
    let mut i: usize = 0;
    assert(s.take(0) =~= Seq::<Json>::empty());
    while i < arr.len()
        invariant
            i <= s.len(),
            s == arr@,
            team_rosters_from(out@, s.take(i as int)),
        decreases s.len() - i,
    {
        assert(s.take(i + 1).drop_last() =~= s.take(i as int));
        assert(s.take(i + 1).last() == s[i as int]);
        let ghost before = out@;
        match parse_team_roster(&arr[i]) {
            Some(tr) => {
                out.push(tr);
                assert(out@.drop_last() =~= before);
            },
            None => {},
        }
        i = i + 1;
    }
    assert(s.take(s.len() as int) =~= s);
    out
}

// ─── Errors ────────────────────────────────────────────────────────────────

/// The text that stands for an HTTP client error: the status when the
/// server answered, else the kind of failure. It never holds the request
/// URL, which carries the user's secret ID.
pub open spec fn sanitized_http_text(
    status: Option<Seq<char>>,
    timeout: bool,
    connect: bool,
    decode: bool,
) -> Seq<char> {
    match status {
        Some(s) => "HTTP "@ + s,
        None => if timeout {
            "request timed out"@
        } else if connect {
            "connection failed"@
        } else if decode {
            "response decode error"@
        } else {
            "request failed"@
        },
    }
}

/// Builds the sanitized text of an HTTP client error from what the error
/// reports: its status (as text) when there is one, and whether it timed
/// out, failed to connect, or failed to decode the body.
pub fn sanitize_http_error(status: Option<&str>, timeout: bool, connect: bool, decode: bool) -> (r: String)
    ensures
        r@ == sanitized_http_text(
            match status {
                Some(s) => Some(s@),
                None => None,
            },
            timeout,
            connect,
            decode,
        ),
{
    match status {
        Some(s) => {
            let mut m = owned("HTTP ");
            m.append(s);
            m
        },
        None => if timeout {
            owned("request timed out")
        } else if connect {
            owned("connection failed")
        } else if decode {
            owned("response decode error")
        } else {
            owned("request failed")
        },
    }
}

/// The status of an HTTP client error as its `Display` text (number and
/// reason), when the error carries a status.
pub uninterp spec fn reqwest_status_text(e: reqwest::Error) -> Option<Seq<char>>;

/// Whether an HTTP client error is a timeout.
pub uninterp spec fn reqwest_is_timeout(e: reqwest::Error) -> bool;

/// Whether an HTTP client error comes from a failed connection.
pub uninterp spec fn reqwest_is_connect(e: reqwest::Error) -> bool;

/// Whether an HTTP client error comes from decoding the response body.
pub uninterp spec fn reqwest_is_decode(e: reqwest::Error) -> bool;

/// Calls `reqwest::Error::status` and formats the status code (number and
/// reason) with its `Display`. The contract names the result
/// (`reqwest_status_text` of the error).
#[verifier::external_body]
fn http_status_text(e: &reqwest::Error) -> (r: Option<String>)
    ensures
        match r {
            Some(s) => reqwest_status_text(*e) == Some(s@),
            None => reqwest_status_text(*e) is None,
        },
{
    match e.status() {
        Some(code) => Some(code.to_string()),
        None => None,
    }
}

/// Calls `reqwest::Error::is_timeout`; the result is named `reqwest_is_timeout`.
#[verifier::external_body]
fn http_is_timeout(e: &reqwest::Error) -> (r: bool)
    ensures
        r == reqwest_is_timeout(*e),
{
    e.is_timeout()
}

/// Calls `reqwest::Error::is_connect`; the result is named `reqwest_is_connect`.
#[verifier::external_body]
fn http_is_connect(e: &reqwest::Error) -> (r: bool)
    ensures
        r == reqwest_is_connect(*e),
{
    e.is_connect()
}

/// Calls `reqwest::Error::is_decode`; the result is named `reqwest_is_decode`.
#[verifier::external_body]
fn http_is_decode(e: &reqwest::Error) -> (r: bool)
    ensures
        r == reqwest_is_decode(*e),
{
    e.is_decode()
}

impl From<reqwest::Error> for FantraxError {
    /// Strips the URL from an HTTP client error, to avoid leaking the
    /// user's secret ID: the message is the sanitized text of the error's
    /// status and its timeout, connect and decode flags.
    fn from(e: reqwest::Error) -> (r: Self)
        ensures
            r matches FantraxError::Http(m) && m@ == sanitized_http_text(
                reqwest_status_text(e),
                reqwest_is_timeout(e),
                reqwest_is_connect(e),
                reqwest_is_decode(e),
            ),
    {
        let status = http_status_text(&e);
        let timeout = http_is_timeout(&e);
        let connect = http_is_connect(&e);
        let decode = http_is_decode(&e);
        let text = match &status {
            Some(s) => sanitize_http_error(Some(s.as_str()), timeout, connect, decode),
            None => sanitize_http_error(None, timeout, connect, decode),
        };
        FantraxError::Http(text)
    }
}

/// The generic spec is left open, since it would have to build a `String`
/// in spec code; the impl's own `ensures` states the message exactly.
impl vstd::std_specs::convert::FromSpecImpl<reqwest::Error> for FantraxError {
    open spec fn obeys_from_spec() -> bool {
        false
    }

    open spec fn from_spec(e: reqwest::Error) -> Self {
        arbitrary()
    }
}

/// The message of a Fantrax error.
pub open spec fn fantrax_error_text(e: FantraxError) -> Seq<char> {
    match e {
        FantraxError::Http(m) => "HTTP error: "@ + m@,
        FantraxError::Api(m) => "Fantrax API error: "@ + m@,
    }
}

impl FantraxError {
    /// The error's message (its `Display` text).
    pub fn to_string(&self) -> (r: String)
        ensures
            r@ == fantrax_error_text(*self),
    {
        match self {
            FantraxError::Http(m) => {
                let mut s = owned("HTTP error: ");
                s.append(m.as_str());
                s
            },
            FantraxError::Api(m) => {
                let mut s = owned("Fantrax API error: ");
                s.append(m.as_str());
                s
            },
        }
    }
}

// ─── Leagues, league info, standings, player IDs ───────────────────────────

/// Where in a response an array was found: the field `key` of the response,
/// or of its `data` object.
#[derive(Debug)]
pub struct ArrayPath {
    pub under_data: bool,
    pub key: String,
}

/// The value at `path` in `resp`.
pub open spec fn path_value(resp: Json, path: ArrayPath) -> Option<Json> {
    if path.under_data {
        get_opt(get(resp, "data"@), path.key@)
    } else {
        get(resp, path.key@)
    }
}

/// A league that a `getLeagues` response lists: its position in the array,
/// its ID and its name.
#[derive(Debug)]
pub struct LeagueEntry {
    pub index: usize,
    pub id: LeagueId,
    pub name: String,
}

/// The leagues of a `getLeagues` response, and where the array was found.
#[derive(Debug)]
pub struct LeagueListing {
    pub path: ArrayPath,
    pub leagues: Vec<LeagueEntry>,
}

/// Where a `getLeagues` response lists its leagues: `leagues`, else
/// `data.leagues`.
pub open spec fn leagues_value(resp: Json) -> Option<Json> {
    or_else(get(resp, "leagues"@), get_opt(get(resp, "data"@), "leagues"@))
}

/// A league entry's ID: `leagueId`, else `league_id`, when it is a string.
pub open spec fn league_entry_id(e: Json) -> Option<Seq<char>> {
    str_of_opt(get2(e, "leagueId"@, "league_id"@))
}

/// `l` is the league read from the array entry `e` at position `index`.
pub open spec fn league_from(l: LeagueEntry, e: Json, index: int) -> bool {
    &&& l.index == index
    &&& league_entry_id(e) == Some(l.id@)
    &&& l.name@ == str_or(get3(e, "leagueName"@, "league_name"@, "name"@), "Unknown"@)
}

/// `ls` holds, in order, the leagues read from the entries of `src` that
/// have an ID.
pub open spec fn leagues_from(ls: Seq<LeagueEntry>, src: Seq<Json>) -> bool
    decreases src.len(),
{
    if src.len() == 0 {
        ls.len() == 0
    } else if league_entry_id(src.last()) is None {
        leagues_from(ls, src.drop_last())
    } else {
        &&& ls.len() > 0
        &&& league_from(ls.last(), src.last(), src.len() - 1)
        &&& leagues_from(ls.drop_last(), src.drop_last())
    }
}

/// Reads the leagues of a `getLeagues` response. `shape` is the response
/// as compact JSON text, quoted in the error when the response has no
/// league array.
pub fn parse_leagues(resp: &Json, shape: &str) -> (r: Result<LeagueListing, FantraxError>)
    ensures
        match array_of_opt(leagues_value(*resp)) {
            None => r matches Err(FantraxError::Api(m)) && m@
                == "unexpected getLeagues response shape: "@ + shape@,
            Some(arr) => r matches Ok(listing) && {
                &&& path_value(*resp, listing.path) == leagues_value(*resp)
                &&& leagues_from(listing.leagues@, arr)
            },
        },
{
    let top = json_get(resp, "leagues");
    let under_data = top.is_none();
    let value = json_or(top, json_get_opt(json_get(resp, "data"), "leagues"));
    let arr = match opt_as_array(value) {
        Some(a) => a,
        None => {
            let mut m = owned("unexpected getLeagues response shape: ");
            m.append(shape);
            return Err(FantraxError::Api(m));
        },
    };
    let ghost s = arr@;
    let mut out: Vec<LeagueEntry> = Vec::new();
    let mut i: usize = 0;
    assert(s.take(0) =~= Seq::<Json>::empty());
    while i < arr.len()
        invariant
            i <= s.len(),
            s == arr@,
            leagues_from(out@, s.take(i as int)),
        decreases s.len() - i,
    {
        assert(s.take(i + 1).drop_last() =~= s.take(i as int));
        assert(s.take(i + 1).last() == s[i as int]);
        let ghost before = out@;
        let e = &arr[i];
        match opt_str(json_get2(e, "leagueId", "league_id")) {
            Some(id) => {
                let name = opt_str_or(json_get3(e, "leagueName", "league_name", "name"), "Unknown");
                out.push(LeagueEntry { index: i, id: LeagueId::new(id.as_str()), name });
                assert(out@.drop_last() =~= before);
            },
            None => {},
        }
        i = i + 1;
    }
    assert(s.take(s.len() as int) =~= s);
    Ok(LeagueListing { path: ArrayPath { under_data, key: owned("leagues") }, leagues: out })
}

/// The league name in a `getLeagueInfo` response: `leagueName`, else
/// `name`, else the same two under `data`; "Unknown" when that is not a
/// string.
pub open spec fn league_name_of(resp: Json) -> Seq<char> {
    let data = get(resp, "data"@);
    str_or(
        or_else(
            get(resp, "leagueName"@),
            or_else(get(resp, "name"@), or_else(get_opt(data, "leagueName"@), get_opt(data, "name"@))),
        ),
        "Unknown"@,
    )
}

/// Reads the league name of a `getLeagueInfo` response.
pub fn parse_league_name(resp: &Json) -> (r: String)
    ensures
        r@ == league_name_of(*resp),
{
    let data = json_get(resp, "data");
    let value = json_or(
        json_get(resp, "leagueName"),
        json_or(
            json_get(resp, "name"),
            json_or(json_get_opt(data, "leagueName"), json_get_opt(data, "name")),
        ),
    );
    opt_str_or(value, "Unknown")
}

/// A team's standing read from a `getStandings` entry, without its points
/// (a floating-point figure, read by the caller from the entry at `index`).
#[derive(Debug)]
pub struct StandingRow {
    pub index: usize,
    pub team_id: TeamId,
    pub team_name: String,
    pub rank: u32,
    pub wins: u32,
    pub losses: u32,
    pub ties: u32,
}

/// The standings of a `getStandings` response, and where the array was
/// found.
#[derive(Debug)]
pub struct StandingsListing {
    pub path: ArrayPath,
    pub rows: Vec<StandingRow>,
}

/// Where a `getStandings` response lists its teams: `standings`, else
/// `teams`, else `data.standings`.
pub open spec fn standings_value(resp: Json) -> Option<Json> {
    or_else(
        get(resp, "standings"@),
        or_else(get(resp, "teams"@), get_opt(get(resp, "data"@), "standings"@)),
    )
}

/// A count read from the first of `keys` that reads as a `u32`, else 0.
pub open spec fn count_of(e: Json, keys: Seq<Seq<char>>) -> u32 {
    match first_u32(e, keys) {
        Some(n) => n,
        None => 0,
    }
}

/// `row` is the standing read from the array entry `e` at `index`.
pub open spec fn standing_from(row: StandingRow, e: Json, index: int) -> bool {
    &&& row.index == index
    &&& entry_team_id(e) == Some(row.team_id@)
    &&& row.team_name@ == str_or(get3(e, "teamName"@, "team_name"@, "name"@), "Unknown"@)
    &&& row.rank == count_of(e, seq!["rank"@, "rk"@])
    &&& row.wins == count_of(e, seq!["wins"@, "w"@])
    &&& row.losses == count_of(e, seq!["losses"@, "l"@])
    &&& row.ties == count_of(e, seq!["ties"@, "t"@, "draws"@])
}

/// `rows` holds, in order, the standings read from the entries of `src`
/// that have a team ID.
pub open spec fn standings_from(rows: Seq<StandingRow>, src: Seq<Json>) -> bool
    decreases src.len(),
{
    if src.len() == 0 {
        rows.len() == 0
    } else if entry_team_id(src.last()) is None {
        standings_from(rows, src.drop_last())
    } else {
        &&& rows.len() > 0
        &&& standing_from(rows.last(), src.last(), src.len() - 1)
        &&& standings_from(rows.drop_last(), src.drop_last())
    }
}

/// A count read from the first of two keys, else 0.
fn count_at2(e: &Json, a: &str, b: &str) -> (r: u32)
    ensures
        r == count_of(*e, seq![a@, b@]),
{
    let keys: Vec<&str> = vec![a, b];
    assert(keys@.map_values(|k: &str| k@) =~= seq![a@, b@]);
    match json_u32(e, &keys) {
        Some(n) => n,
        None => 0,
    }
}

/// A count read from the first of three keys, else 0.
fn count_at3(e: &Json, a: &str, b: &str, c: &str) -> (r: u32)
    ensures
        r == count_of(*e, seq![a@, b@, c@]),
{
    let keys: Vec<&str> = vec![a, b, c];
    assert(keys@.map_values(|k: &str| k@) =~= seq![a@, b@, c@]);
    match json_u32(e, &keys) {
        Some(n) => n,
        None => 0,
    }
}

/// Reads the standings of a `getStandings` response, trying the shapes the
/// API is known to return; no rows when none matches.
pub fn parse_standings(resp: &Json) -> (r: StandingsListing)
    ensures
        path_value(*resp, r.path) == standings_value(*resp),
        match array_of_opt(standings_value(*resp)) {
            Some(arr) => standings_from(r.rows@, arr),
            None => r.rows@.len() == 0,
        },
{
    let standings = json_get(resp, "standings");
    let teams = json_get(resp, "teams");
    let path = if standings.is_some() {
        ArrayPath { under_data: false, key: owned("standings") }
    } else if teams.is_some() {
        ArrayPath { under_data: false, key: owned("teams") }
    } else {
        ArrayPath { under_data: true, key: owned("standings") }
    };
    let value = json_or(standings, json_or(teams, json_get_opt(json_get(resp, "data"), "standings")));
    let arr = match opt_as_array(value) {
        Some(a) => a,
        None => {
            return StandingsListing { path, rows: Vec::new() };
        },
    };
    let ghost s = arr@;
    let mut out: Vec<StandingRow> = Vec::new();
    let mut i: usize = 0;
    assert(s.take(0) =~= Seq::<Json>::empty());
    while i < arr.len()
        invariant
            i <= s.len(),
            s == arr@,
            standings_from(out@, s.take(i as int)),
        decreases s.len() - i,
    {
        assert(s.take(i + 1).drop_last() =~= s.take(i as int));
        assert(s.take(i + 1).last() == s[i as int]);
        let ghost before = out@;
        let e = &arr[i];
        match opt_str(json_get2(e, "teamId", "team_id")) {
            Some(id) => {
                let team_name = opt_str_or(json_get3(e, "teamName", "team_name", "name"), "Unknown");
                let row = StandingRow {
                    index: i,
                    team_id: TeamId::new(id.as_str()),
                    team_name,
                    rank: count_at2(e, "rank", "rk"),
                    wins: count_at2(e, "wins", "w"),
                    losses: count_at2(e, "losses", "l"),
                    ties: count_at3(e, "ties", "t", "draws"),
                };
                out.push(row);
                assert(out@.drop_last() =~= before);
            },
            None => {},
        }
        i = i + 1;
    }
    assert(s.take(s.len() as int) =~= s);
    StandingsListing { path, rows: out }
}

/// A player ID/name pair from the Fantrax `getPlayerIds` endpoint.
///
/// Not to be confused with `crate::types::PlayerId`, which is the newtype
/// wrapper around a single player ID string.
#[derive(Debug)]
pub struct PlayerIdEntry {
    pub id: PlayerId,
    pub name: String,
}

/// Where a `getPlayerIds` response lists its players: `playerIds`, else
/// `players`, else `data.playerIds`.
pub open spec fn player_ids_value(resp: Json) -> Option<Json> {
    or_else(
        get(resp, "playerIds"@),
        or_else(get(resp, "players"@), get_opt(get(resp, "data"@), "playerIds"@)),
    )
}

/// A player entry's ID: `playerId`, else `id`, when it is a string.
pub open spec fn id_entry_id(e: Json) -> Option<Seq<char>> {
    str_of_opt(get2(e, "playerId"@, "id"@))
}

/// `ps` holds, in order, the pairs read from the entries of `src` that have
/// an ID (the name being `name`, else `playerName`, else "Unknown").
pub open spec fn id_entries_from(ps: Seq<PlayerIdEntry>, src: Seq<Json>) -> bool
    decreases src.len(),
{
    if src.len() == 0 {
        ps.len() == 0
    } else if id_entry_id(src.last()) is None {
        id_entries_from(ps, src.drop_last())
    } else {
        &&& ps.len() > 0
        &&& id_entry_id(src.last()) == Some(ps.last().id@)
        &&& ps.last().name@ == str_or(get2(src.last(), "name"@, "playerName"@), "Unknown"@)
        &&& id_entries_from(ps.drop_last(), src.drop_last())
    }
}

/// `ps` pairs each field of an `{id: name}` object with its value as the
/// name ("Unknown" when that is not a string).
pub open spec fn id_pairs_from(ps: Seq<PlayerIdEntry>, fields: Seq<(String, Json)>) -> bool {
    &&& ps.len() == fields.len()
    &&& forall|i: int|
        0 <= i < ps.len() ==> (#[trigger] ps[i]).id@ == fields[i].0@ && ps[i].name@ == str_or(
            Some(fields[i].1),
            "Unknown"@,
        )
}

/// Reads the players of a `getPlayerIds` response: an array of entries, or
/// an object mapping IDs to names; none for any other shape.
pub fn parse_player_ids(resp: &Json) -> (r: Vec<PlayerIdEntry>)
    ensures
        match array_of_opt(player_ids_value(*resp)) {
            Some(arr) => id_entries_from(r@, arr),
            None => match object_of(player_ids_value(*resp)) {
                Some(fields) => id_pairs_from(r@, fields),
                None => r@.len() == 0,
            },
        },
{
    let value = json_or(
        json_get(resp, "playerIds"),
        json_or(json_get(resp, "players"), json_get_opt(json_get(resp, "data"), "playerIds")),
    );
    let mut out: Vec<PlayerIdEntry> = Vec::new();
    match value {
        Some(Json::Array(arr)) => {
            let ghost s = arr@;
            let mut i: usize = 0;
            assert(s.take(0) =~= Seq::<Json>::empty());
            while i < arr.len()
                invariant
                    i <= s.len(),
                    s == arr@,
                    id_entries_from(out@, s.take(i as int)),
                decreases s.len() - i,
            {
                assert(s.take(i + 1).drop_last() =~= s.take(i as int));
                assert(s.take(i + 1).last() == s[i as int]);
                let ghost before = out@;
                let e = &arr[i];
                match opt_str(json_get2(e, "playerId", "id")) {
                    Some(id) => {
                        let name = opt_str_or(json_get2(e, "name", "playerName"), "Unknown");
                        out.push(PlayerIdEntry { id: PlayerId::new(id.as_str()), name });
                        assert(out@.drop_last() =~= before);
                    },
                    None => {},
                }
                i = i + 1;
            }
            assert(s.take(s.len() as int) =~= s);
        },
        Some(Json::Object(fields)) => {
            let mut i: usize = 0;
            while i < fields.len()
                invariant
                    i <= fields@.len(),
                    out@.len() == i,
                    forall|j: int|
                        0 <= j < i ==> (#[trigger] out@[j]).id@ == fields@[j].0@ && out@[j].name@
                            == str_or(Some(fields@[j].1), "Unknown"@),
                decreases fields@.len() - i,
            {
                let name = opt_str_or(Some(&fields[i].1), "Unknown");
                out.push(PlayerIdEntry { id: PlayerId::new(fields[i].0.as_str()), name });
                i = i + 1;
            }
        },
        _ => {},
    }
    out
}

} // verus!
