//! MLB Stats API data: schedule games, players and box scores, and the
//! parsers that read them out of decoded API responses.
use vstd::prelude::*;

use crate::json::{
    Json, array_of_opt, get, get_opt, json_get, json_u32_of, u32_reading, json_get_opt, opt_as_array,
    object_of, opt_as_u64, opt_str, opt_str_or, opt_val, str_of_opt, str_or, u64_of_opt,
    u64_or_zero,
};
use crate::text::{decimal, push_decimal, text_eq};

verus! {

/// The HTTP client's error type, carried through unchanged.
#[verifier::external_type_specification]
#[verifier::external_body]
pub struct ExReqwestError(reqwest::Error);

/// Errors that can occur when calling the MLB Stats API.
#[derive(Debug)]
pub enum MlbError {
    /// HTTP transport error from the HTTP client.
    Http(reqwest::Error),
    /// The API returned a response we couldn't parse or that indicates failure.
    Api(String),
}

/// The text that `Display` writes for an HTTP client error: its kind, the
/// URL when it has one, and its source. It depends on the error alone.
pub uninterp spec fn reqwest_display(e: reqwest::Error) -> Seq<char>;

/// Calls the `Display` impl of `reqwest::Error`. The contract names the
/// text (`reqwest_display` of the error); its layout is not restated here.
#[verifier::external_body]
pub(crate) fn http_error_text(e: &reqwest::Error) -> (r: String)
    ensures
        r@ == reqwest_display(*e),
{
    e.to_string()
}

impl MlbError {
    /// The error's message (its `Display` text).
    pub fn to_string(&self) -> (r: String)
        ensures
            match self {
                MlbError::Http(e) => r@ == "HTTP error: "@ + reqwest_display(*e),
                MlbError::Api(m) => r@ == "MLB Stats API error: "@ + m@,
            },
    {
        match self {
            MlbError::Http(e) => {
                let t = http_error_text(e);
                let mut s = crate::text::owned("HTTP error: ");
                s.append(t.as_str());
                assert(s@ == "HTTP error: "@ + t@);
                s
            },
            MlbError::Api(m) => {
                let mut s = crate::text::owned("MLB Stats API error: ");
                s.append(m.as_str());
                s
            },
        }
    }
}

impl From<reqwest::Error> for MlbError {
    fn from(e: reqwest::Error) -> (r: Self) {
        MlbError::Http(e)
    }
}

impl vstd::std_specs::convert::FromSpecImpl<reqwest::Error> for MlbError {
    open spec fn obeys_from_spec() -> bool {
        true
    }

    open spec fn from_spec(e: reqwest::Error) -> Self {
        MlbError::Http(e)
    }
}

/// A single MLB game from the schedule endpoint.
#[derive(Debug)]
pub struct Game {
    /// Unique game identifier used by the MLB Stats API.
    pub game_pk: u64,
    /// Human-readable game date (YYYY-MM-DD).
    pub game_date: String,
    /// Abstract game state: "Preview", "Live", "Final".
    pub status: String,
    /// Detailed status description (e.g. "Scheduled", "In Progress", "Final").
    pub detailed_state: String,
    pub away_team: TeamInfo,
    pub home_team: TeamInfo,
    /// Probable starting pitcher for the away team, if announced.
    pub away_probable_pitcher: Option<PitcherInfo>,
    /// Probable starting pitcher for the home team, if announced.
    pub home_probable_pitcher: Option<PitcherInfo>,
}

/// A team taking part in a game.
#[derive(Debug)]
pub struct TeamInfo {
    pub id: u64,
    pub name: String,
}

/// A probable starting pitcher.
#[derive(Debug)]
pub struct PitcherInfo {
    pub id: u64,
    pub full_name: String,
    pub pitch_hand: Option<String>,
}

/// Player information from the /people endpoint.
#[derive(Debug)]
pub struct Player {
    pub id: u64,
    pub full_name: String,
    /// Primary position abbreviation (e.g. "SS", "SP", "RF").
    pub primary_position: String,
    /// Batting side: "R", "L", or "S" (switch).
    pub bat_side: String,
    /// Pitching hand: "R" or "L".
    pub pitch_hand: String,
    /// Current team name, if active.
    pub current_team: Option<String>,
    /// Current team ID, if active.
    pub current_team_id: Option<u64>,
}

/// Box score for a completed (or in-progress) game.
#[derive(Debug)]
pub struct Boxscore {
    pub game_pk: u64,
    pub away_team_name: String,
    pub home_team_name: String,
    pub away_batters: Vec<BatterLine>,
    pub home_batters: Vec<BatterLine>,
    pub away_pitchers: Vec<PitcherLine>,
    pub home_pitchers: Vec<PitcherLine>,
}

/// A single batter's line from the box score.
#[derive(Debug)]
pub struct BatterLine {
    pub player_id: u64,
    pub name: String,
    pub position: String,
    pub at_bats: u32,
    pub runs: u32,
    pub hits: u32,
    pub doubles: u32,
    pub triples: u32,
    pub home_runs: u32,
    pub rbi: u32,
    pub walks: u32,
    pub strikeouts: u32,
    pub stolen_bases: u32,
    pub avg: String,
}

/// A single pitcher's line from the box score.
#[derive(Debug)]
pub struct PitcherLine {
    pub player_id: u64,
    pub name: String,
    pub innings_pitched: String,
    pub hits: u32,
    pub runs: u32,
    pub earned_runs: u32,
    pub walks: u32,
    pub strikeouts: u32,
    pub home_runs: u32,
    pub pitches_thrown: u32,
    pub strikes: u32,
    pub era: String,
    pub decision: Option<String>,
}

/// A copy of an optional string.
pub fn clone_opt_string(s: &Option<String>) -> (r: Option<String>)
    ensures
        r == *s,
{
    match s {
        Some(x) => Some(x.clone()),
        None => None,
    }
}

impl Clone for TeamInfo {
    fn clone(&self) -> (r: Self)
        ensures
            r == *self,
    {
        TeamInfo { id: self.id, name: self.name.clone() }
    }
}

impl Clone for PitcherInfo {
    fn clone(&self) -> (r: Self)
        ensures
            r == *self,
    {
        PitcherInfo {
            id: self.id,
            full_name: self.full_name.clone(),
            pitch_hand: clone_opt_string(&self.pitch_hand),
        }
    }
}

impl Clone for Player {
    fn clone(&self) -> (r: Self)
        ensures
            r == *self,
    {
        Player {
            id: self.id,
            full_name: self.full_name.clone(),
            primary_position: self.primary_position.clone(),
            bat_side: self.bat_side.clone(),
            pitch_hand: self.pitch_hand.clone(),
            current_team: clone_opt_string(&self.current_team),
            current_team_id: self.current_team_id,
        }
    }
}

impl Clone for BatterLine {
    fn clone(&self) -> (r: Self)
        ensures
            r == *self,
    {
        BatterLine {
            player_id: self.player_id,
            name: self.name.clone(),
            position: self.position.clone(),
            at_bats: self.at_bats,
            runs: self.runs,
            hits: self.hits,
            doubles: self.doubles,
            triples: self.triples,
            home_runs: self.home_runs,
            rbi: self.rbi,
            walks: self.walks,
            strikeouts: self.strikeouts,
            stolen_bases: self.stolen_bases,
            avg: self.avg.clone(),
        }
    }
}

impl Clone for PitcherLine {
    fn clone(&self) -> (r: Self)
        ensures
            r == *self,
    {
        PitcherLine {
            player_id: self.player_id,
            name: self.name.clone(),
            innings_pitched: self.innings_pitched.clone(),
            hits: self.hits,
            runs: self.runs,
            earned_runs: self.earned_runs,
            walks: self.walks,
            strikeouts: self.strikeouts,
            home_runs: self.home_runs,
            pitches_thrown: self.pitches_thrown,
            strikes: self.strikes,
            era: self.era.clone(),
            decision: clone_opt_string(&self.decision),
        }
    }
}

// ─── Parsing: scalar readers ───────────────────────────────────────────────

/// The view of an optional string.
pub open spec fn opt_text(o: Option<String>) -> Option<Seq<char>> {
    match o {
        Some(s) => Some(s@),
        None => None,
    }
}

/// A stat read as a `u32`: an integer is truncated to 32 bits, another
/// number is converted from its floating-point value, a string is parsed,
/// and anything else reads as 0.
pub open spec fn json_u32_value(v: Json) -> u32 {
    match u32_reading(v) {
        Some(k) => k,
        None => 0,
    }
}

/// The stat `key` of `obj` as a `u32` (0 when absent).
pub open spec fn stat_u32(obj: Json, key: Seq<char>) -> u32 {
    match get(obj, key) {
        Some(v) => json_u32_value(v),
        None => 0,
    }
}

/// A stat read as text: a string as it is, a number with three decimals,
/// anything else as the empty string.
pub open spec fn json_text_value(v: Json) -> Seq<char> {
    match v {
        Json::Str(s) => s@,
        Json::Number(n) => n.fixed3@,
        _ => Seq::empty(),
    }
}

/// The stat `key` of `obj` as text (empty when absent).
pub open spec fn stat_text(obj: Json, key: Seq<char>) -> Seq<char> {
    match get(obj, key) {
        Some(v) => json_text_value(v),
        None => Seq::empty(),
    }
}

/// Reads the stat `key` of `obj` as a `u32`.
pub fn val_u32(obj: &Json, key: &str) -> (r: u32)
    ensures
        r == stat_u32(*obj, key@),
{
    match json_get(obj, key) {
        Some(v) => match json_u32_of(v) {
            Some(k) => k,
            None => 0,
        },
        None => 0,
    }
}

/// Reads the stat `key` of `obj` as text.
pub fn val_str(obj: &Json, key: &str) -> (r: String)
    ensures
        r@ == stat_text(*obj, key@),
{
    match json_get(obj, key) {
        Some(Json::Str(s)) => s.clone(),
        Some(Json::Number(n)) => n.fixed3.clone(),
        _ => String::new(),
    }
}

// ─── Parsing: teams, pitchers, players ─────────────────────────────────────

/// `t` is the team read from `team` (a schedule entry's `away`/`home`).
pub open spec fn team_info_from(t: TeamInfo, team: Option<Json>) -> bool {
    let obj = get_opt(team, "team"@);
    &&& t.id == u64_or_zero(get_opt(obj, "id"@))
    &&& t.name@ == str_or(get_opt(obj, "name"@), "Unknown"@)
}

/// `p` is the probable pitcher read from `pitcher`: none without a numeric
/// `id`, else the ID, the name ("Unknown" when absent) and the throwing hand.
pub open spec fn pitcher_info_from(p: Option<PitcherInfo>, pitcher: Json) -> bool {
    match u64_of_opt(get(pitcher, "id"@)) {
        None => p is None,
        Some(id) => p matches Some(info) && {
            &&& info.id == id
            &&& info.full_name@ == str_or(get(pitcher, "fullName"@), "Unknown"@)
            &&& opt_text(info.pitch_hand) == str_of_opt(get_opt(get(pitcher, "pitchHand"@), "code"@))
        },
    }
}

/// `p` is the probable pitcher read from an optional `probablePitcher`.
pub open spec fn probable_from(p: Option<PitcherInfo>, pitcher: Option<Json>) -> bool {
    match pitcher {
        None => p is None,
        Some(x) => pitcher_info_from(p, x),
    }
}

/// `p` is the player read from an entry of the `people` array.
pub open spec fn player_from(p: Player, person: Json) -> bool {
    let team = get(person, "currentTeam"@);
    &&& p.id == u64_or_zero(get(person, "id"@))
    &&& p.full_name@ == str_or(get(person, "fullName"@), "Unknown"@)
    &&& p.primary_position@ == str_or(get_opt(get(person, "primaryPosition"@), "abbreviation"@), "Unknown"@)
    &&& p.bat_side@ == str_or(get_opt(get(person, "batSide"@), "code"@), "Unknown"@)
    &&& p.pitch_hand@ == str_or(get_opt(get(person, "pitchHand"@), "code"@), "Unknown"@)
    &&& opt_text(p.current_team) == str_of_opt(get_opt(team, "name"@))
    &&& p.current_team_id == u64_of_opt(get_opt(team, "id"@))
}

/// Reads a team from a schedule entry's `away` or `home` object.
pub fn parse_team_info(team: Option<&Json>) -> (r: TeamInfo)
    ensures
        team_info_from(r, opt_val(team)),
{
    let team_obj = json_get_opt(team, "team");
    TeamInfo {
        id: match opt_as_u64(json_get_opt(team_obj, "id")) {
            Some(n) => n,
            None => 0,
        },
        name: opt_str_or(json_get_opt(team_obj, "name"), "Unknown"),
    }
}

/// Reads a probable pitcher; `None` when it has no numeric `id`.
pub fn parse_pitcher_info(pitcher: &Json) -> (r: Option<PitcherInfo>)
    ensures
        pitcher_info_from(r, *pitcher),
{
    let id = match opt_as_u64(json_get(pitcher, "id")) {
        Some(n) => n,
        None => {
            return None;
        },
    };
    let full_name = opt_str_or(json_get(pitcher, "fullName"), "Unknown");
    let pitch_hand = opt_str(json_get_opt(json_get(pitcher, "pitchHand"), "code"));
    Some(PitcherInfo { id, full_name, pitch_hand })
}

/// Reads the first player of a `/people` response.
///
/// Fails when `people` is missing or not an array, and when it is empty.
pub fn parse_player(resp: &Json) -> (r: Result<Player, MlbError>)
    ensures
        match array_of_opt(get(*resp, "people"@)) {
            None => r matches Err(MlbError::Api(m)) && m@ == "missing 'people' array in player response"@,
            Some(people) => if people.len() == 0 {
                r matches Err(MlbError::Api(m)) && m@ == "empty 'people' array"@
            } else {
                r matches Ok(p) && player_from(p, people[0])
            },
        },
{
    let people = match opt_as_array(json_get(resp, "people")) {
        Some(a) => a,
        None => {
            return Err(MlbError::Api(String::from_str("missing 'people' array in player response")));
        },
    };
    if people.len() == 0 {
        return Err(MlbError::Api(String::from_str("empty 'people' array")));
    }
    let p = &people[0];
    let id = match opt_as_u64(json_get(p, "id")) {
        Some(n) => n,
        None => 0,
    };
    let full_name = opt_str_or(json_get(p, "fullName"), "Unknown");
    let primary_position = opt_str_or(
        json_get_opt(json_get(p, "primaryPosition"), "abbreviation"),
        "Unknown",
    );
    let bat_side = opt_str_or(json_get_opt(json_get(p, "batSide"), "code"), "Unknown");
    let pitch_hand = opt_str_or(json_get_opt(json_get(p, "pitchHand"), "code"), "Unknown");
    let team = json_get(p, "currentTeam");
    let current_team = opt_str(json_get_opt(team, "name"));
    let current_team_id = opt_as_u64(json_get_opt(team, "id"));
    Ok(Player {
        id,
        full_name,
        primary_position,
        bat_side,
        pitch_hand,
        current_team,
        current_team_id,
    })
}

// ─── Parsing: the schedule ─────────────────────────────────────────────────

/// `g` is the game read from the schedule entry `src` on the date `date`.
pub open spec fn game_from(g: Game, date: Seq<char>, src: Json) -> bool {
    let status = get(src, "status"@);
    let teams = get(src, "teams"@);
    let away = get_opt(teams, "away"@);
    let home = get_opt(teams, "home"@);
    &&& g.game_pk == u64_or_zero(get(src, "gamePk"@))
    &&& g.game_date@ == date
    &&& g.status@ == str_or(get_opt(status, "abstractGameState"@), "Unknown"@)
    &&& g.detailed_state@ == str_or(get_opt(status, "detailedState"@), "Unknown"@)
    &&& team_info_from(g.away_team, away)
    &&& team_info_from(g.home_team, home)
    &&& probable_from(g.away_probable_pitcher, get_opt(away, "probablePitcher"@))
    &&& probable_from(g.home_probable_pitcher, get_opt(home, "probablePitcher"@))
}

/// The games of one `dates` entry, each paired with the entry's date
/// ("unknown" when absent); none when the entry has no `games` array.
pub open spec fn date_games(entry: Json) -> Seq<(Seq<char>, Json)> {
    match array_of_opt(get(entry, "games"@)) {
        Some(gs) => gs.map_values(|g: Json| (str_or(get(entry, "date"@), "unknown"@), g)),
        None => Seq::empty(),
    }
}

/// The games of all `dates` entries, in order.
pub open spec fn schedule_games(dates: Seq<Json>) -> Seq<(Seq<char>, Json)>
    decreases dates.len(),
{
    if dates.len() == 0 {
        Seq::empty()
    } else {
        schedule_games(dates.drop_last()) + date_games(dates.last())
    }
}

/// Each game of `gs` is read from the matching (date, game) source.
pub open spec fn games_from(gs: Seq<Game>, src: Seq<(Seq<char>, Json)>) -> bool {
    &&& gs.len() == src.len()
    &&& forall|i: int| 0 <= i < gs.len() ==> game_from(#[trigger] gs[i], src[i].0, src[i].1)
}

/// Reads one game of a schedule entry dated `date`.
pub fn parse_game(date: &str, g: &Json) -> (r: Game)
    ensures
        game_from(r, date@, *g),
{
    let game_pk = match opt_as_u64(json_get(g, "gamePk")) {
        Some(n) => n,
        None => 0,
    };
    let status_obj = json_get(g, "status");
    let status = opt_str_or(json_get_opt(status_obj, "abstractGameState"), "Unknown");
    let detailed_state = opt_str_or(json_get_opt(status_obj, "detailedState"), "Unknown");
    let teams = json_get(g, "teams");
    let away = json_get_opt(teams, "away");
    let home = json_get_opt(teams, "home");
    let away_team = parse_team_info(away);
    let home_team = parse_team_info(home);
    let away_probable_pitcher = match json_get_opt(away, "probablePitcher") {
        Some(p) => parse_pitcher_info(p),
        None => None,
    };
    let home_probable_pitcher = match json_get_opt(home, "probablePitcher") {
        Some(p) => parse_pitcher_info(p),
        None => None,
    };
    Game {
        game_pk,
        game_date: crate::text::owned(date),
        status,
        detailed_state,
        away_team,
        home_team,
        away_probable_pitcher,
        home_probable_pitcher,
    }
}

/// Reads the games of a `/schedule` response, across all its dates.
///
/// Fails only when `dates` is missing or not an array.
pub fn parse_schedule(resp: &Json) -> (r: Result<Vec<Game>, MlbError>)
    ensures
        match array_of_opt(get(*resp, "dates"@)) {
            None => r matches Err(MlbError::Api(m)) && m@ == "missing 'dates' array in schedule response"@,
            Some(dates) => r matches Ok(games) && games_from(games@, schedule_games(dates)),
        },
{
    let dates = match opt_as_array(json_get(resp, "dates")) {
        Some(a) => a,
        None => {
            return Err(
                MlbError::Api(String::from_str("missing 'dates' array in schedule response")),
            );
        },
    };
    let ghost ds = dates@;
    let mut games: Vec<Game> = Vec::new();
    let mut i: usize = 0;
    assert(ds.take(0) =~= Seq::<Json>::empty());
    while i < dates.len()
        invariant
            i <= ds.len(),
            ds == dates@,
            games_from(games@, schedule_games(ds.take(i as int))),
        decreases ds.len() - i,
    {
        let entry = &dates[i];
        assert(ds.take(i + 1).drop_last() =~= ds.take(i as int));
        assert(ds.take(i + 1).last() == *entry);
        let date_str = opt_str_or(json_get(entry, "date"), "unknown");
        let ghost before = games@;
        let ghost prefix = schedule_games(ds.take(i as int));
        match opt_as_array(json_get(entry, "games")) {
            Some(arr) => {
                let ghost src = date_games(*entry);
                assert(src.len() == arr@.len());
                let mut k: usize = 0;
                while k < arr.len()
                    invariant
                        k <= arr@.len(),
                        src == date_games(*entry),
                        src.len() == arr@.len(),
                        array_of_opt(get(*entry, "games"@)) == Some(arr@),
                        date_str@ == str_or(get(*entry, "date"@), "unknown"@),
                        games_from(before, prefix),
                        games@.len() == before.len() + k,
                        forall|j: int| 0 <= j < before.len() ==> games@[j] == before[j],
                        forall|j: int|
                            0 <= j < k ==> game_from(
                                #[trigger] games@[before.len() + j],
                                src[j].0,
                                src[j].1,
                            ),
                    decreases arr@.len() - k,
                {
                    let game = parse_game(date_str.as_str(), &arr[k]);
                    games.push(game);
                    assert(src[k as int] == (date_str@, arr@[k as int]));
                    k = k + 1;
                }
                assert forall|j: int| 0 <= j < games@.len() implies game_from(
                    #[trigger] games@[j],
                    (prefix + src)[j].0,
                    (prefix + src)[j].1,
                ) by {
                    if j >= before.len() {
                        let jj = j - before.len();
                        assert(games@[before.len() + jj] == games@[j]);
                    } else {
                        assert(games@[j] == before[j]);
                    }
                }
            },
            None => {},
        }
        i = i + 1;
    }
    assert(ds.take(ds.len() as int) =~= ds);
    Ok(games)
}

// ─── Ordering rows by group ────────────────────────────────────────────────
//
// A row is a pair (group, index). The box-score parsers sort the rows they
// keep by group, stably: rows of a lower group come first, rows of one group
// keep the order they came in.

/// Is `g` in `lo..hi` (`lo..` when `hi` is `None`)?
pub open spec fn group_in(g: usize, lo: int, hi: Option<int>) -> bool {
    &&& lo <= g
    &&& match hi {
        Some(h) => g < h,
        None => true,
    }
}

/// The indices of the rows whose group is in `lo..hi`, in their order.
pub open spec fn select_groups(rows: Seq<(usize, usize)>, lo: int, hi: Option<int>) -> Seq<usize>
    decreases rows.len(),
{
    if rows.len() == 0 {
        Seq::empty()
    } else {
        let prev = select_groups(rows.drop_last(), lo, hi);
        if group_in(rows.last().0, lo, hi) {
            prev.push(rows.last().1)
        } else {
            prev
        }
    }
}

/// The rows of groups `0`, `1`, ..., `n - 1`, group after group.
pub open spec fn groups_below(rows: Seq<(usize, usize)>, n: nat) -> Seq<usize>
    decreases n,
{
    if n == 0 {
        Seq::empty()
    } else {
        groups_below(rows, (n - 1) as nat) + select_groups(rows, n - 1, Some(n as int))
    }
}

/// The row indices sorted stably by group, where every group from `n` on
/// counts as one last group.
pub open spec fn by_group(rows: Seq<(usize, usize)>, n: nat) -> Seq<usize> {
    groups_below(rows, n) + select_groups(rows, n as int, None)
}

proof fn lemma_select_keeps(
    rows: Seq<(usize, usize)>,
    lo: int,
    hi: Option<int>,
    p: spec_fn(usize) -> bool,
)
    requires
        forall|j: int| 0 <= j < rows.len() ==> p(#[trigger] rows[j].1),
    ensures
        forall|k: int|
            0 <= k < select_groups(rows, lo, hi).len() ==> p(
                #[trigger] select_groups(rows, lo, hi)[k],
            ),
    decreases rows.len(),
{
    if rows.len() > 0 {
        let init = rows.drop_last();
        assert forall|j: int| 0 <= j < init.len() implies p(#[trigger] init[j].1) by {
            assert(init[j] == rows[j]);
        }
        lemma_select_keeps(init, lo, hi, p);
        assert(rows.last() == rows[rows.len() - 1]);
        assert(p(rows.last().1));
        let prev = select_groups(init, lo, hi);
        assert forall|k: int|
            0 <= k < select_groups(rows, lo, hi).len() implies p(
                #[trigger] select_groups(rows, lo, hi)[k],
            ) by {
            if k < prev.len() {
                assert(select_groups(rows, lo, hi)[k] == prev[k]);
            }
        }
    }
}

proof fn lemma_groups_below_keep(rows: Seq<(usize, usize)>, n: nat, p: spec_fn(usize) -> bool)
    requires
        forall|j: int| 0 <= j < rows.len() ==> p(#[trigger] rows[j].1),
    ensures
        forall|k: int|
            0 <= k < groups_below(rows, n).len() ==> p(#[trigger] groups_below(rows, n)[k]),
    decreases n,
{
    if n > 0 {
        lemma_groups_below_keep(rows, (n - 1) as nat, p);
        lemma_select_keeps(rows, n - 1, Some(n as int), p);
        let a = groups_below(rows, (n - 1) as nat);
        let b = select_groups(rows, n - 1, Some(n as int));
        assert forall|k: int| 0 <= k < (a + b).len() implies p(#[trigger] (a + b)[k]) by {
            if k < a.len() {
                assert((a + b)[k] == a[k]);
            } else {
                assert((a + b)[k] == b[k - a.len()]);
            }
        }
    }
}

/// Every index that `by_group` yields is the index of some row, so a
/// property of all row indices holds of all of them.
proof fn lemma_by_group_keeps(rows: Seq<(usize, usize)>, n: nat, p: spec_fn(usize) -> bool)
    requires
        forall|j: int| 0 <= j < rows.len() ==> p(#[trigger] rows[j].1),
    ensures
        forall|k: int| 0 <= k < by_group(rows, n).len() ==> p(#[trigger] by_group(rows, n)[k]),
{
    lemma_groups_below_keep(rows, n, p);
    lemma_select_keeps(rows, n as int, None, p);
    let a = groups_below(rows, n);
    let b = select_groups(rows, n as int, None);
    assert forall|k: int| 0 <= k < (a + b).len() implies p(#[trigger] (a + b)[k]) by {
        if k < a.len() {
            assert((a + b)[k] == a[k]);
        } else {
            assert((a + b)[k] == b[k - a.len()]);
        }
    }
}

/// The indices of all rows, in order.
pub open spec fn row_indices(rows: Seq<(usize, usize)>) -> Seq<usize> {
    rows.map_values(|r: (usize, usize)| r.1)
}

proof fn lemma_select_split(rows: Seq<(usize, usize)>, lo: int, hi: int)
    requires
        lo <= hi,
    ensures
        select_groups(rows, lo, Some(hi)).to_multiset().add(
            select_groups(rows, hi, None).to_multiset(),
        ) =~= select_groups(rows, lo, None).to_multiset(),
    decreases rows.len(),
{
    broadcast use vstd::seq_lib::group_to_multiset_ensures;
    broadcast use vstd::multiset::group_multiset_axioms;

    if rows.len() == 0 {
        assert(select_groups(rows, lo, Some(hi)) =~= Seq::<usize>::empty());
        assert(select_groups(rows, hi, None) =~= Seq::<usize>::empty());
        assert(select_groups(rows, lo, None) =~= Seq::<usize>::empty());
    } else {
        lemma_select_split(rows.drop_last(), lo, hi);
    }
}

proof fn lemma_select_all(rows: Seq<(usize, usize)>)
    ensures
        select_groups(rows, 0, None) =~= row_indices(rows),
    decreases rows.len(),
{
    if rows.len() > 0 {
        lemma_select_all(rows.drop_last());
        assert(row_indices(rows.drop_last()).push(rows.last().1) =~= row_indices(rows));
    }
}

proof fn lemma_groups_below_split(rows: Seq<(usize, usize)>, n: nat)
    ensures
        groups_below(rows, n).to_multiset().add(select_groups(rows, n as int, None).to_multiset())
            =~= select_groups(rows, 0, None).to_multiset(),
    decreases n,
{
    broadcast use vstd::seq_lib::group_to_multiset_ensures;
    broadcast use vstd::multiset::group_multiset_axioms;

    if n == 0 {
        assert(groups_below(rows, 0) =~= Seq::<usize>::empty());
    } else {
        lemma_groups_below_split(rows, (n - 1) as nat);
        lemma_select_split(rows, n - 1, n as int);
        vstd::seq_lib::lemma_multiset_commutative(
            groups_below(rows, (n - 1) as nat),
            select_groups(rows, n - 1, Some(n as int)),
        );
    }
}

/// Ordering rows by group keeps every row exactly once: the result is a
/// permutation of the rows' indices. So every player who batted (or
/// pitched) gets exactly one line.
pub proof fn law_by_group_is_permutation(rows: Seq<(usize, usize)>, n: nat)
    ensures
        by_group(rows, n).to_multiset() =~= row_indices(rows).to_multiset(),
        by_group(rows, n).len() == rows.len(),
{
    broadcast use vstd::seq_lib::group_to_multiset_ensures;

    lemma_groups_below_split(rows, n);
    lemma_select_all(rows);
    vstd::seq_lib::lemma_multiset_commutative(
        groups_below(rows, n),
        select_groups(rows, n as int, None),
    );
    assert(by_group(rows, n).to_multiset().len() == row_indices(rows).to_multiset().len());
}

/// Appends the indices of the rows whose group is in `lo..hi`.
fn append_groups(rows: &Vec<(usize, usize)>, lo: usize, hi: Option<usize>, out: &mut Vec<usize>)
    ensures
        final(out)@ == old(out)@ + select_groups(
            rows@,
            lo as int,
            match hi {
                Some(h) => Some(h as int),
                None => None,
            },
        ),
{
    let ghost h = match hi {
        Some(h) => Some(h as int),
        None => None,
    };
    let ghost start = out@;
    let mut j: usize = 0;
    assert(rows@.take(0) =~= Seq::<(usize, usize)>::empty());
    while j < rows.len()
        invariant
            j <= rows@.len(),
            h == match hi {
                Some(x) => Some(x as int),
                None => None,
            },
            out@ == start + select_groups(rows@.take(j as int), lo as int, h),
        decreases rows@.len() - j,
    {
        assert(rows@.take(j + 1).drop_last() =~= rows@.take(j as int));
        assert(rows@.take(j + 1).last() == rows@[j as int]);
        let g = rows[j].0;
        let inside = lo <= g && match hi {
            Some(x) => g < x,
            None => true,
        };
        if inside {
            out.push(rows[j].1);
            assert(out@ =~= start + select_groups(rows@.take(j + 1), lo as int, h));
        } else {
            assert(out@ =~= start + select_groups(rows@.take(j + 1), lo as int, h));
        }
        j = j + 1;
    }
    assert(rows@.take(j as int) =~= rows@);
}

/// The row indices sorted stably by group; every group from `n` on counts
/// as one last group.
pub fn stable_by_group(rows: &Vec<(usize, usize)>, n: usize) -> (r: Vec<usize>)
    ensures
        r@ == by_group(rows@, n as nat),
{
    let mut out: Vec<usize> = Vec::new();
    let mut g: usize = 0;
    while g < n
        invariant
            g <= n,
            out@ == groups_below(rows@, g as nat),
        decreases n - g,
    {
        append_groups(rows, g, Some(g + 1), &mut out);
        g = g + 1;
    }
    append_groups(rows, n, None, &mut out);
    out
}

// ─── Parsing: box-score lines ──────────────────────────────────────────────

/// The key by which a batting-order or pitchers-list entry names a player:
/// a number `n` names "ID{n}", a string names itself, anything else nothing.
pub open spec fn order_key(v: Json) -> Option<Seq<char>> {
    match v {
        Json::Number(n) => match n.as_u64 {
            Some(k) => Some("ID"@ + decimal(k as nat)),
            None => None,
        },
        Json::Str(s) => Some(s@),
        _ => None,
    }
}

/// The keys named by the entries of `vs`, in order.
pub open spec fn order_keys(vs: Seq<Json>) -> Seq<Seq<char>>
    decreases vs.len(),
{
    if vs.len() == 0 {
        Seq::empty()
    } else {
        match order_key(vs.last()) {
            Some(k) => order_keys(vs.drop_last()).push(k),
            None => order_keys(vs.drop_last()),
        }
    }
}

/// The keys listed by the array `field` of `team` (none without one).
pub open spec fn order_of(team: Json, field: Seq<char>) -> Seq<Seq<char>> {
    match array_of_opt(get(team, field)) {
        Some(vs) => order_keys(vs),
        None => Seq::empty(),
    }
}

/// The index of the first occurrence of `k` in `keys`; `keys.len()` when
/// there is none.
pub open spec fn first_index(keys: Seq<Seq<char>>, k: Seq<char>) -> int {
    if keys.contains(k) {
        choose|i: int| 0 <= i < keys.len() && keys[i] == k && forall|j: int| 0 <= j < i ==> keys[j] != k
    } else {
        keys.len() as int
    }
}

/// A player's batting stats.
pub open spec fn batting_of(pv: Json) -> Option<Json> {
    get_opt(get(pv, "stats"@), "batting"@)
}

/// A player's pitching stats.
pub open spec fn pitching_of(pv: Json) -> Option<Json> {
    get_opt(get(pv, "stats"@), "pitching"@)
}

/// The player has batting stats with an at-bat, a walk or a hit.
pub open spec fn batted(pv: Json) -> bool {
    match batting_of(pv) {
        Some(st) => !(stat_u32(st, "atBats"@) == 0 && stat_u32(st, "baseOnBalls"@) == 0
            && stat_u32(st, "hits"@) == 0),
        None => false,
    }
}

/// The player has pitching stats with innings pitched other than "" or "0".
pub open spec fn pitched(pv: Json) -> bool {
    match pitching_of(pv) {
        Some(st) => stat_text(st, "inningsPitched"@) != ""@ && stat_text(st, "inningsPitched"@)
            != "0"@,
        None => false,
    }
}

/// The players who batted, as rows (group, field index): group 0 for a
/// player whose key is in the batting order, 1 for the others.
pub open spec fn batter_rows(fields: Seq<(String, Json)>, order: Seq<Seq<char>>) -> Seq<(usize, usize)>
    decreases fields.len(),
{
    if fields.len() == 0 {
        Seq::empty()
    } else {
        let prev = batter_rows(fields.drop_last(), order);
        let last = fields.last();
        if batted(last.1) {
            prev.push(
                (
                    if order.contains(last.0@) {
                        0usize
                    } else {
                        1usize
                    },
                    (fields.len() - 1) as usize,
                ),
            )
        } else {
            prev
        }
    }
}

/// The players who pitched, as rows (group, field index), the group being
/// the position of the player's key in the pitchers list (its length when
/// absent).
pub open spec fn pitcher_rows(fields: Seq<(String, Json)>, order: Seq<Seq<char>>) -> Seq<(usize, usize)>
    decreases fields.len(),
{
    if fields.len() == 0 {
        Seq::empty()
    } else {
        let prev = pitcher_rows(fields.drop_last(), order);
        let last = fields.last();
        if pitched(last.1) {
            prev.push((first_index(order, last.0@) as usize, (fields.len() - 1) as usize))
        } else {
            prev
        }
    }
}

/// `l` is the batting line read from the player entry `pv`.
pub open spec fn batter_line_from(l: BatterLine, pv: Json) -> bool {
    let person = get(pv, "person"@);
    &&& batting_of(pv) matches Some(st)
    &&& l.player_id == u64_or_zero(get_opt(person, "id"@))
    &&& l.name@ == str_or(get_opt(person, "fullName"@), "Unknown"@)
    &&& l.position@ == str_or(get_opt(get(pv, "position"@), "abbreviation"@), "Unknown"@)
    &&& l.at_bats == stat_u32(st, "atBats"@)
    &&& l.runs == stat_u32(st, "runs"@)
    &&& l.hits == stat_u32(st, "hits"@)
    &&& l.doubles == stat_u32(st, "doubles"@)
    &&& l.triples == stat_u32(st, "triples"@)
    &&& l.home_runs == stat_u32(st, "homeRuns"@)
    &&& l.rbi == stat_u32(st, "rbi"@)
    &&& l.walks == stat_u32(st, "baseOnBalls"@)
    &&& l.strikeouts == stat_u32(st, "strikeOuts"@)
    &&& l.stolen_bases == stat_u32(st, "stolenBases"@)
    &&& l.avg@ == stat_text(st, "avg"@)
}

/// Each count of a batting line is the stat under its own MLB key in the
/// player's `stats.batting` object: at-bats under `atBats`, doubles under
/// `doubles`, triples under `triples`, and so on; the average is the text
/// under `avg`.
pub proof fn law_batting_fields_follow_their_keys(l: BatterLine, pv: Json)
    requires
        batter_line_from(l, pv),
    ensures
        get_opt(get(pv, "stats"@), "batting"@) matches Some(st) && l.at_bats == stat_u32(
            st,
            "atBats"@,
        ) && l.runs == stat_u32(st, "runs"@) && l.hits == stat_u32(st, "hits"@) && l.doubles
            == stat_u32(st, "doubles"@) && l.triples == stat_u32(st, "triples"@) && l.home_runs
            == stat_u32(st, "homeRuns"@) && l.rbi == stat_u32(st, "rbi"@) && l.walks == stat_u32(
            st,
            "baseOnBalls"@,
        ) && l.strikeouts == stat_u32(st, "strikeOuts"@) && l.stolen_bases == stat_u32(
            st,
            "stolenBases"@,
        ) && l.avg@ == stat_text(st, "avg"@),
{
}

/// `l` is the pitching line read from the player entry `pv`.
pub open spec fn pitcher_line_from(l: PitcherLine, pv: Json) -> bool {
    let person = get(pv, "person"@);
    &&& pitching_of(pv) matches Some(st)
    &&& l.player_id == u64_or_zero(get_opt(person, "id"@))
    &&& l.name@ == str_or(get_opt(person, "fullName"@), "Unknown"@)
    &&& l.innings_pitched@ == stat_text(st, "inningsPitched"@)
    &&& l.hits == stat_u32(st, "hits"@)
    &&& l.runs == stat_u32(st, "runs"@)
    &&& l.earned_runs == stat_u32(st, "earnedRuns"@)
    &&& l.walks == stat_u32(st, "baseOnBalls"@)
    &&& l.strikeouts == stat_u32(st, "strikeOuts"@)
    &&& l.home_runs == stat_u32(st, "homeRuns"@)
    &&& l.pitches_thrown == stat_u32(st, "numberOfPitches"@)
    &&& l.strikes == stat_u32(st, "strikes"@)
    &&& l.era@ == stat_text(st, "era"@)
    &&& opt_text(l.decision) == str_of_opt(get(st, "note"@))
}

/// Each count of a pitching line is the stat under its own MLB key in the
/// player's `stats.pitching` object: hits under `hits`, earned runs under
/// `earnedRuns`, strikeouts under `strikeOuts`, and so on; innings pitched
/// and ERA are the texts under `inningsPitched` and `era`.
pub proof fn law_pitching_fields_follow_their_keys(l: PitcherLine, pv: Json)
    requires
        pitcher_line_from(l, pv),
    ensures
        get_opt(get(pv, "stats"@), "pitching"@) matches Some(st) && l.innings_pitched@
            == stat_text(st, "inningsPitched"@) && l.hits == stat_u32(st, "hits"@) && l.runs
            == stat_u32(st, "runs"@) && l.earned_runs == stat_u32(st, "earnedRuns"@) && l.walks
            == stat_u32(st, "baseOnBalls"@) && l.strikeouts == stat_u32(st, "strikeOuts"@)
            && l.home_runs == stat_u32(st, "homeRuns"@) && l.pitches_thrown == stat_u32(
            st,
            "numberOfPitches"@,
        ) && l.strikes == stat_u32(st, "strikes"@) && l.era@ == stat_text(st, "era"@),
{
}

/// The batting lines of a box-score team: one per player who batted,
/// those in the batting order first, each part in the players' order.
pub open spec fn batter_lines_from(ls: Seq<BatterLine>, team: Json) -> bool {
    match object_of(get(team, "players"@)) {
        None => ls.len() == 0,
        Some(fields) => {
            let idx = by_group(batter_rows(fields, order_of(team, "battingOrder"@)), 1);
            &&& ls.len() == idx.len()
            &&& forall|i: int|
                0 <= i < ls.len() ==> batter_line_from(#[trigger] ls[i], fields[idx[i] as int].1)
        },
    }
}

/// The pitching lines of a box-score team: one per player who pitched, in
/// the order of the pitchers list, those not in it last (in the players'
/// order).
pub open spec fn pitcher_lines_from(ls: Seq<PitcherLine>, team: Json) -> bool {
    match object_of(get(team, "players"@)) {
        None => ls.len() == 0,
        Some(fields) => {
            let order = order_of(team, "pitchers"@);
            let idx = by_group(pitcher_rows(fields, order), order.len());
            &&& ls.len() == idx.len()
            &&& forall|i: int|
                0 <= i < ls.len() ==> pitcher_line_from(#[trigger] ls[i], fields[idx[i] as int].1)
        },
    }
}

/// The keys listed by the array `field` of `team`.
pub fn order_keys_of(team: &Json, field: &str) -> (r: Vec<String>)
    ensures
        r.deep_view() == order_of(*team, field@),
{
    let mut keys: Vec<String> = Vec::new();
    let vs = match opt_as_array(json_get(team, field)) {
        Some(a) => a,
        None => {
            assert(keys.deep_view() =~= Seq::<Seq<char>>::empty());
            return keys;
        },
    };
    let ghost s = vs@;
    let mut i: usize = 0;
    assert(s.take(0) =~= Seq::<Json>::empty());
    assert(keys.deep_view() =~= Seq::<Seq<char>>::empty());
    while i < vs.len()
        invariant
            i <= s.len(),
            s == vs@,
            keys.deep_view() == order_keys(s.take(i as int)),
        decreases s.len() - i,
    {
        assert(s.take(i + 1).drop_last() =~= s.take(i as int));
        assert(s.take(i + 1).last() == s[i as int]);
        let ghost before = keys.deep_view();
        match &vs[i] {
            Json::Number(n) => match n.as_u64 {
                Some(k) => {
                    let mut key = crate::text::owned("ID");
                    push_decimal(&mut key, k);
                    keys.push(key);
                    assert(keys.deep_view() =~= before.push("ID"@ + decimal(k as nat)));
                },
                None => {},
            },
            Json::Str(t) => {
                keys.push(t.clone());
                assert(keys.deep_view() =~= before.push(t@));
            },
            _ => {},
        }
        i = i + 1;
    }
    assert(s.take(s.len() as int) =~= s);
    keys
}

/// The position of the first key equal to `k` (`keys.len()` when none is).
pub fn position_in(keys: &Vec<String>, k: &String) -> (r: usize)
    ensures
        r as int == first_index(keys.deep_view(), k@),
        (r < keys@.len()) == keys.deep_view().contains(k@),
{
    let ghost kv = keys.deep_view();
    let mut i: usize = 0;
    while i < keys.len()
        invariant
            i <= keys@.len(),
            kv == keys.deep_view(),
            kv.len() == keys@.len(),
            forall|j: int| 0 <= j < i ==> kv[j] != k@,
        decreases keys@.len() - i,
    {
        assert(kv[i as int] == keys@[i as int]@);
        if keys[i] == *k {
            proof {
                assert(kv.contains(k@));
                let c = first_index(kv, k@);
                assert(0 <= c < kv.len() && kv[c] == k@ && forall|j: int| 0 <= j < c ==> kv[j] != k@);
                if c < i {
                } else if c > i {
                    assert(kv[i as int] != k@);
                }
            }
            return i;
        }
        i = i + 1;
    }
    assert(!kv.contains(k@));
    i
}

/// Reads a batting line from a player entry and its batting stats.
fn batter_line(pv: &Json, st: &Json) -> (r: BatterLine)
    requires
        batting_of(*pv) == Some(*st),
    ensures
        batter_line_from(r, *pv),
{
    let person = json_get(pv, "person");
    BatterLine {
        player_id: match opt_as_u64(json_get_opt(person, "id")) {
            Some(n) => n,
            None => 0,
        },
        name: opt_str_or(json_get_opt(person, "fullName"), "Unknown"),
        position: opt_str_or(json_get_opt(json_get(pv, "position"), "abbreviation"), "Unknown"),
        at_bats: val_u32(st, "atBats"),
        runs: val_u32(st, "runs"),
        hits: val_u32(st, "hits"),
        doubles: val_u32(st, "doubles"),
        triples: val_u32(st, "triples"),
        home_runs: val_u32(st, "homeRuns"),
        rbi: val_u32(st, "rbi"),
        walks: val_u32(st, "baseOnBalls"),
        strikeouts: val_u32(st, "strikeOuts"),
        stolen_bases: val_u32(st, "stolenBases"),
        avg: val_str(st, "avg"),
    }
}

/// Reads a pitching line from a player entry and its pitching stats.
fn pitcher_line(pv: &Json, st: &Json) -> (r: PitcherLine)
    requires
        pitching_of(*pv) == Some(*st),
    ensures
        pitcher_line_from(r, *pv),
{
    let person = json_get(pv, "person");
    PitcherLine {
        player_id: match opt_as_u64(json_get_opt(person, "id")) {
            Some(n) => n,
            None => 0,
        },
        name: opt_str_or(json_get_opt(person, "fullName"), "Unknown"),
        innings_pitched: val_str(st, "inningsPitched"),
        hits: val_u32(st, "hits"),
        runs: val_u32(st, "runs"),
        earned_runs: val_u32(st, "earnedRuns"),
        walks: val_u32(st, "baseOnBalls"),
        strikeouts: val_u32(st, "strikeOuts"),
        home_runs: val_u32(st, "homeRuns"),
        pitches_thrown: val_u32(st, "numberOfPitches"),
        strikes: val_u32(st, "strikes"),
        era: val_str(st, "era"),
        decision: opt_str(json_get(st, "note")),
    }
}

/// Reads the batting lines of a box-score team (starters in the batting order first, then bench and pinch hitters).
pub fn parse_batter_lines(team: &Json) -> (r: Vec<BatterLine>)
    ensures
        batter_lines_from(r@, *team),
{
    let players = match json_get(team, "players") {
        Some(Json::Object(f)) => f,
        _ => {
            return Vec::new();
        },
    };
    let order = order_keys_of(team, "battingOrder");
    let ghost fs = players@;
    let ghost ov = order.deep_view();
    let mut rows: Vec<(usize, usize)> = Vec::new();
    let mut i: usize = 0;
    assert(fs.take(0) =~= Seq::<(String, Json)>::empty());
    while i < players.len()
        invariant
            i <= fs.len(),
            fs == players@,
            ov == order.deep_view(),
            ov.len() == order@.len(),
            rows@ == batter_rows(fs.take(i as int), ov),
            forall|j: int| 0 <= j < rows@.len() ==> (#[trigger] rows@[j]).1 < i && batted(fs[rows@[j].1 as int].1),
        decreases fs.len() - i,
    {
        assert(fs.take(i + 1).drop_last() =~= fs.take(i as int));
        assert(fs.take(i + 1).last() == fs[i as int]);
        let pv = &players[i].1;
        match json_get_opt(json_get(pv, "stats"), "batting") {
            Some(st) => {
                let at_bats = val_u32(st, "atBats");
                let walks = val_u32(st, "baseOnBalls");
                let hits = val_u32(st, "hits");
                if !(at_bats == 0 && walks == 0 && hits == 0) {
                    let pos = position_in(&order, &players[i].0);
                    let group: usize = if pos < order.len() {
                        0
                    } else {
                        1
                    };
                    rows.push((group, i));
                }
            },
            None => {},
        }
        i = i + 1;
    }
    assert(fs.take(fs.len() as int) =~= fs);
    let idx = stable_by_group(&rows, 1);
    proof {
        let p = |x: usize| (x as int) < fs.len() && batted(fs[x as int].1);
        assert forall|j: int| 0 <= j < rows@.len() implies p(#[trigger] rows@[j].1) by {}
        lemma_by_group_keeps(rows@, 1 as nat, p);
    }
    let mut lines: Vec<BatterLine> = Vec::new();
    let mut k: usize = 0;
    while k < idx.len()
        invariant
            k <= idx@.len(),
            fs == players@,
            object_of(get(*team, "players"@)) == Some(fs),
            ov == order.deep_view(),
            ov == order_of(*team, "battingOrder"@),
            rows@ == batter_rows(fs, ov),
            idx@ == by_group(rows@, (1) as nat),
            lines@.len() == k,
            forall|m: int| 0 <= m < idx@.len() ==> (#[trigger] idx@[m] as int) < fs.len() && batted(fs[idx@[m] as int].1),
            forall|m: int| 0 <= m < k ==> batter_line_from(#[trigger] lines@[m], fs[idx@[m] as int].1),
        decreases idx@.len() - k,
    {
        assert((idx@[k as int] as int) < fs.len() && batted(fs[idx@[k as int] as int].1));
        let pv = &players[idx[k]].1;
        if let Some(st) = json_get_opt(json_get(pv, "stats"), "batting") {
            lines.push(batter_line(pv, st));
        }
        k = k + 1;
    }
    lines
}

/// Reads the pitching lines of a box-score team (in the order they appeared, as the pitchers list gives it).
pub fn parse_pitcher_lines(team: &Json) -> (r: Vec<PitcherLine>)
    ensures
        pitcher_lines_from(r@, *team),
{
    let players = match json_get(team, "players") {
        Some(Json::Object(f)) => f,
        _ => {
            return Vec::new();
        },
    };
    let order = order_keys_of(team, "pitchers");
    let ghost fs = players@;
    let ghost ov = order.deep_view();
    let mut rows: Vec<(usize, usize)> = Vec::new();
    let mut i: usize = 0;
    assert(fs.take(0) =~= Seq::<(String, Json)>::empty());
    while i < players.len()
        invariant
            i <= fs.len(),
            fs == players@,
            ov == order.deep_view(),
            ov.len() == order@.len(),
            rows@ == pitcher_rows(fs.take(i as int), ov),
            forall|j: int| 0 <= j < rows@.len() ==> (#[trigger] rows@[j]).1 < i && pitched(fs[rows@[j].1 as int].1),
        decreases fs.len() - i,
    {
        assert(fs.take(i + 1).drop_last() =~= fs.take(i as int));
        assert(fs.take(i + 1).last() == fs[i as int]);
        let pv = &players[i].1;
        match json_get_opt(json_get(pv, "stats"), "pitching") {
            Some(st) => {
                let ip = val_str(st, "inningsPitched");
                if !(text_eq(ip.as_str(), "") || text_eq(ip.as_str(), "0")) {
                    let pos = position_in(&order, &players[i].0);
                    rows.push((pos, i));
                }
            },
            None => {},
        }
        i = i + 1;
    }
    assert(fs.take(fs.len() as int) =~= fs);
    let idx = stable_by_group(&rows, order.len());
    proof {
        let p = |x: usize| (x as int) < fs.len() && pitched(fs[x as int].1);
        assert forall|j: int| 0 <= j < rows@.len() implies p(#[trigger] rows@[j].1) by {}
        lemma_by_group_keeps(rows@, order.len() as nat, p);
    }
    let mut lines: Vec<PitcherLine> = Vec::new();
    let mut k: usize = 0;
    while k < idx.len()
        invariant
            k <= idx@.len(),
            fs == players@,
            object_of(get(*team, "players"@)) == Some(fs),
            ov == order.deep_view(),
            ov == order_of(*team, "pitchers"@),
            rows@ == pitcher_rows(fs, ov),
            idx@ == by_group(rows@, (order.len()) as nat),
            lines@.len() == k,
            forall|m: int| 0 <= m < idx@.len() ==> (#[trigger] idx@[m] as int) < fs.len() && pitched(fs[idx@[m] as int].1),
            forall|m: int| 0 <= m < k ==> pitcher_line_from(#[trigger] lines@[m], fs[idx@[m] as int].1),
        decreases idx@.len() - k,
    {
        assert((idx@[k as int] as int) < fs.len() && pitched(fs[idx@[k as int] as int].1));
        let pv = &players[idx[k]].1;
        if let Some(st) = json_get_opt(json_get(pv, "stats"), "pitching") {
            lines.push(pitcher_line(pv, st));
        }
        k = k + 1;
    }
    lines
}

/// `b` is the box score of game `game_pk` read from the `away` and `home`
/// team objects.
pub open spec fn boxscore_from(b: Boxscore, game_pk: u64, away: Json, home: Json) -> bool {
    &&& b.game_pk == game_pk
    &&& b.away_team_name@ == str_or(get_opt(get(away, "team"@), "name"@), "Away"@)
    &&& b.home_team_name@ == str_or(get_opt(get(home, "team"@), "name"@), "Home"@)
    &&& batter_lines_from(b.away_batters@, away)
    &&& batter_lines_from(b.home_batters@, home)
    &&& pitcher_lines_from(b.away_pitchers@, away)
    &&& pitcher_lines_from(b.home_pitchers@, home)
}

/// Reads a `/game/{gamePk}/boxscore` response.
///
/// Fails when `teams`, or its `away` or `home` object, is missing.
pub fn parse_boxscore(game_pk: u64, resp: &Json) -> (r: Result<Boxscore, MlbError>)
    ensures
        match get(*resp, "teams"@) {
            None => r matches Err(MlbError::Api(m)) && m@ == "missing 'teams' in boxscore response"@,
            Some(teams) => match get(teams, "away"@) {
                None => r matches Err(MlbError::Api(m)) && m@ == "missing 'away' in boxscore teams"@,
                Some(away) => match get(teams, "home"@) {
                    None => r matches Err(MlbError::Api(m)) && m@
                        == "missing 'home' in boxscore teams"@,
                    Some(home) => r matches Ok(b) && boxscore_from(b, game_pk, away, home),
                },
            },
        },
{
    let teams = match json_get(resp, "teams") {
        Some(t) => t,
        None => {
            return Err(MlbError::Api(String::from_str("missing 'teams' in boxscore response")));
        },
    };
    let away = match json_get(teams, "away") {
        Some(a) => a,
        None => {
            return Err(MlbError::Api(String::from_str("missing 'away' in boxscore teams")));
        },
    };
    let home = match json_get(teams, "home") {
        Some(h) => h,
        None => {
            return Err(MlbError::Api(String::from_str("missing 'home' in boxscore teams")));
        },
    };
    let away_team_name = opt_str_or(json_get_opt(json_get(away, "team"), "name"), "Away");
    let home_team_name = opt_str_or(json_get_opt(json_get(home, "team"), "name"), "Home");
    let away_batters = parse_batter_lines(away);
    let home_batters = parse_batter_lines(home);
    let away_pitchers = parse_pitcher_lines(away);
    let home_pitchers = parse_pitcher_lines(home);
    Ok(Boxscore {
        game_pk,
        away_team_name,
        home_team_name,
        away_batters,
        home_batters,
        away_pitchers,
        home_pitchers,
    })
}

} // verus!
