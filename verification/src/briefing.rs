//! The morning briefing: what happened yesterday, what to do today.
//!
//! The network calls (schedule, box scores, player lookups) are made by the
//! caller; the functions here decide what to fetch and turn what came back
//! into snippets, action items and notes.
use vstd::prelude::*;

use crate::analysis::{Recommendation, StartSitRecommendation};
use crate::config::LineupType;
use crate::fantrax::{FantraxError, RosterPlayer, TeamRoster, fantrax_error_text};
use crate::mlb::{BatterLine, Boxscore, MlbError, PitcherLine, reqwest_display};
use crate::text::{
    ascii_upper_text, contains, decimal, is_ascii_text, has_infix, has_prefix, join_strings, join_with, num_label, owned,
    push_decimal, starts_with, text_eq, to_upper, unicode_upper,
};
use crate::types::TeamId;

verus! {

// ─── Types ─────────────────────────────────────────────────────────────────

/// One player's stat line (or status) from yesterday.
#[derive(Debug)]
pub struct PlayerSnippet {
    pub player_name: String,
    /// Human-readable line: "2-4, HR, 3 RBI" or "DNP" or "IL10".
    pub line: String,
    /// Flag standout performances.
    pub notable: bool,
}

/// Something the manager should act on.
#[derive(Debug)]
pub struct ActionItem {
    pub urgency: Urgency,
    pub action: String,
    pub reason: String,
}

/// How urgently something needs attention.
#[derive(Debug, Clone, Copy, PartialEq, Eq, Structural)]
pub enum Urgency {
    Now,
    Soon,
    Monitor,
}

/// Errors from the briefing pipeline.
#[derive(Debug)]
pub enum BriefingError {
    Mlb(MlbError),
    Fantrax(FantraxError),
    Other(String),
}

impl BriefingError {
    /// The error's message (its `Display` text).
    pub fn to_string(&self) -> (r: String)
        ensures
            match self {
                BriefingError::Mlb(MlbError::Api(m)) => r@ == "MLB error: "@ + ("MLB Stats API error: "@
                    + m@),
                BriefingError::Mlb(MlbError::Http(e)) => r@ == "MLB error: "@ + ("HTTP error: "@
                    + reqwest_display(*e)),
                BriefingError::Fantrax(e) => r@ == "Fantrax error: "@ + fantrax_error_text(*e),
                BriefingError::Other(m) => r@ == "briefing error: "@ + m@,
            },
    {
        let (prefix, inner) = match self {
            BriefingError::Mlb(e) => ("MLB error: ", e.to_string()),
            BriefingError::Fantrax(e) => ("Fantrax error: ", e.to_string()),
            BriefingError::Other(m) => ("briefing error: ", m.clone()),
        };
        let mut s = owned(prefix);
        s.append(inner.as_str());
        assert(s@ == prefix@ + inner@);
        s
    }
}

impl From<MlbError> for BriefingError {
    fn from(e: MlbError) -> (r: Self) {
        BriefingError::Mlb(e)
    }
}

impl vstd::std_specs::convert::FromSpecImpl<MlbError> for BriefingError {
    open spec fn obeys_from_spec() -> bool {
        true
    }

    open spec fn from_spec(e: MlbError) -> Self {
        BriefingError::Mlb(e)
    }
}

impl From<FantraxError> for BriefingError {
    fn from(e: FantraxError) -> (r: Self) {
        BriefingError::Fantrax(e)
    }
}

impl vstd::std_specs::convert::FromSpecImpl<FantraxError> for BriefingError {
    open spec fn obeys_from_spec() -> bool {
        true
    }

    open spec fn from_spec(e: FantraxError) -> Self {
        BriefingError::Fantrax(e)
    }
}

/// Where a pitcher's innings-pitched figure falls against the 6- and
/// 8-inning marks that make an outing notable. It is computed by the caller
/// from the innings figure as a floating-point number.
#[derive(Debug, Clone, Copy, PartialEq, Eq, Structural)]
pub enum InningsBand {
    BelowSix,
    SixToEight,
    EightOrMore,
}

/// Where a roster player's snippet comes from.
pub enum SnippetSource {
    /// The player is injured: the snippet is the injury status.
    Injury,
    /// The player has no MLB ID: no snippet, the name is reported instead.
    Unresolved,
    /// The player's batting line from a box score.
    Batting(BatterLine),
    /// The player's pitching line from a box score.
    Pitching(PitcherLine),
    /// A resolvable player with no line in any box score.
    DidNotPlay,
}

impl View for PlayerSnippet {
    type V = (Seq<char>, Seq<char>, bool);

    open spec fn view(&self) -> (Seq<char>, Seq<char>, bool) {
        (self.player_name@, self.line@, self.notable)
    }
}

impl View for ActionItem {
    type V = (Urgency, Seq<char>, Seq<char>);

    open spec fn view(&self) -> (Urgency, Seq<char>, Seq<char>) {
        (self.urgency, self.action@, self.reason@)
    }
}

impl Urgency {
    /// The lowercase name used on the wire.
    pub fn as_str(&self) -> (r: &'static str)
        ensures
            r@ == urgency_name(*self),
    {
        match self {
            Urgency::Now => "now",
            Urgency::Soon => "soon",
            Urgency::Monitor => "monitor",
        }
    }
}

pub open spec fn urgency_name(u: Urgency) -> Seq<char> {
    match u {
        Urgency::Now => "now"@,
        Urgency::Soon => "soon"@,
        Urgency::Monitor => "monitor"@,
    }
}

// ─── Specs: statuses and slots ─────────────────────────────────────────────

/// An uppercased status that marks an injury: it mentions IL, DL, DTD or OUT.
pub open spec fn injury_code(s: Seq<char>) -> bool {
    has_infix(s, "IL"@) || has_infix(s, "DL"@) || has_infix(s, "DTD"@) || has_infix(s, "OUT"@)
}

/// An injury status: the uppercased status marks an injury.
pub open spec fn is_injured(status: Seq<char>) -> bool {
    injury_code(unicode_upper(status))
}

/// The status line for an injured player.
pub open spec fn injury_line(status: Seq<char>) -> Seq<char> {
    injury_line_from(status, unicode_upper(status))
}

/// The status itself when its uppercase `s` already starts with its
/// category, otherwise the category followed by the status in parentheses.
pub open spec fn injury_line_from(status: Seq<char>, s: Seq<char>) -> Seq<char> {
    if has_prefix(s, "IL"@) || has_prefix(s, "DTD"@) || has_prefix(s, "OUT"@) {
        status
    } else if has_infix(s, "IL"@) {
        "IL ("@ + status + ")"@
    } else if has_infix(s, "DTD"@) {
        "DTD ("@ + status + ")"@
    } else {
        "OUT ("@ + status + ")"@
    }
}

/// An uppercased position that is a bench or injured-list slot: it
/// mentions BN, BENCH, IL or DL.
pub open spec fn bench_code(p: Seq<char>) -> bool {
    has_infix(p, "BN"@) || has_infix(p, "BENCH"@) || has_infix(p, "IL"@) || has_infix(p, "DL"@)
}

/// A bench or injured-list slot: the uppercased position is a bench code.
pub open spec fn is_bench_or_il(position: Seq<char>) -> bool {
    bench_code(unicode_upper(position))
}

/// The MLB person ID of a Fantrax roster player. There is no Fantrax→MLB
/// crosswalk, so no player resolves.
pub open spec fn mlb_id_of(rp: RosterPlayer) -> Option<u64> {
    None
}

// ─── Specs: box score lines ────────────────────────────────────────────────

/// The first batting line with this MLB person ID.
pub open spec fn first_batter(lines: Seq<BatterLine>, pid: u64) -> Option<BatterLine>
    decreases lines.len(),
{
    if lines.len() == 0 {
        None
    } else if lines[0].player_id == pid {
        Some(lines[0])
    } else {
        first_batter(lines.drop_first(), pid)
    }
}

/// The first pitching line with this MLB person ID.
pub open spec fn first_pitcher(lines: Seq<PitcherLine>, pid: u64) -> Option<PitcherLine>
    decreases lines.len(),
{
    if lines.len() == 0 {
        None
    } else if lines[0].player_id == pid {
        Some(lines[0])
    } else {
        first_pitcher(lines.drop_first(), pid)
    }
}

pub open spec fn batters_of_box(b: Boxscore) -> Seq<BatterLine> {
    b.away_batters@ + b.home_batters@
}

pub open spec fn pitchers_of_box(b: Boxscore) -> Seq<PitcherLine> {
    b.away_pitchers@ + b.home_pitchers@
}

/// "n label" for a count, or just the bare label when the count is one.
pub open spec fn count_part(n: u32, one: Seq<char>, many: Seq<char>) -> Seq<char> {
    if n == 1 {
        one
    } else {
        decimal(n as nat) + many
    }
}

/// The pieces of a batting snippet: hits-at bats, extra-base hits, then the
/// counting stats that are non-zero.
pub open spec fn batter_parts(l: BatterLine) -> Seq<Seq<char>> {
    let p0 = seq![decimal(l.hits as nat) + "-"@ + decimal(l.at_bats as nat)];
    let p1 = if l.home_runs > 0 {
        p0.push(count_part(l.home_runs, "HR"@, " HR"@))
    } else {
        p0
    };
    let p2 = if l.doubles > 0 {
        p1.push(count_part(l.doubles, "2B"@, " 2B"@))
    } else {
        p1
    };
    let p3 = if l.triples > 0 {
        p2.push(count_part(l.triples, "3B"@, " 3B"@))
    } else {
        p2
    };
    let p4 = if l.rbi > 0 {
        p3.push(decimal(l.rbi as nat) + " RBI"@)
    } else {
        p3
    };
    let p5 = if l.runs > 0 {
        p4.push(decimal(l.runs as nat) + " R"@)
    } else {
        p4
    };
    let p6 = if l.walks > 0 {
        p5.push(decimal(l.walks as nat) + " BB"@)
    } else {
        p5
    };
    if l.stolen_bases > 0 {
        p6.push(decimal(l.stolen_bases as nat) + " SB"@)
    } else {
        p6
    }
}

/// Notable batting: 3+ hits, a home run, 3+ RBI, or 2+ stolen bases.
pub open spec fn batter_notable(l: BatterLine) -> bool {
    l.hits >= 3 || l.home_runs > 0 || l.rbi >= 3 || l.stolen_bases >= 2
}

/// The pieces of a pitching snippet: innings, decision, strikeouts, hits,
/// earned runs, then walks and home runs when non-zero.
pub open spec fn pitcher_parts(l: PitcherLine) -> Seq<Seq<char>> {
    let p0 = seq![l.innings_pitched@ + " IP"@];
    let p1 = match l.decision {
        Some(d) => p0.push("("@ + d@ + ")"@),
        None => p0,
    };
    let p2 = p1.push(decimal(l.strikeouts as nat) + " K"@).push(
        decimal(l.hits as nat) + " H"@,
    ).push(decimal(l.earned_runs as nat) + " ER"@);
    let p3 = if l.walks > 0 {
        p2.push(decimal(l.walks as nat) + " BB"@)
    } else {
        p2
    };
    if l.home_runs > 0 {
        p3.push(decimal(l.home_runs as nat) + " HR"@)
    } else {
        p3
    }
}

/// Notable pitching: 10+ strikeouts, a quality start (6+ innings, 3 or fewer
/// earned runs), or 8+ innings.
pub open spec fn pitcher_notable(l: PitcherLine, band: InningsBand) -> bool {
    l.strikeouts >= 10 || (band != InningsBand::BelowSix && l.earned_runs <= 3) || band
        == InningsBand::EightOrMore
}

/// Where a resolvable player's line is found: the first box score holding
/// a batting line for the player (checked first) or a pitching line.
pub open spec fn line_source(boxscores: Seq<Boxscore>, pid: u64) -> SnippetSource
    decreases boxscores.len(),
{
    if boxscores.len() == 0 {
        SnippetSource::DidNotPlay
    } else {
        match first_batter(batters_of_box(boxscores[0]), pid) {
            Some(l) => SnippetSource::Batting(l),
            None => match first_pitcher(pitchers_of_box(boxscores[0]), pid) {
                Some(l) => SnippetSource::Pitching(l),
                None => line_source(boxscores.drop_first(), pid),
            },
        }
    }
}

/// Injured players get their status; players without an MLB ID are
/// unresolved; everyone else gets their box score line or "DNP".
pub open spec fn snippet_source(rp: RosterPlayer, boxscores: Seq<Boxscore>) -> SnippetSource {
    if is_injured(rp.roster_status@) {
        SnippetSource::Injury
    } else {
        match mlb_id_of(rp) {
            None => SnippetSource::Unresolved,
            Some(pid) => line_source(boxscores, pid),
        }
    }
}

/// The players that get a snippet, in roster order.
pub open spec fn reported_players(players: Seq<RosterPlayer>, boxscores: Seq<Boxscore>) -> Seq<
    RosterPlayer,
>
    decreases players.len(),
{
    if players.len() == 0 {
        players
    } else {
        let rest = reported_players(players.drop_last(), boxscores);
        if snippet_source(players.last(), boxscores) is Unresolved {
            rest
        } else {
            rest.push(players.last())
        }
    }
}

/// The names of the players that could not be resolved, in roster order.
pub open spec fn unresolved_names(players: Seq<RosterPlayer>, boxscores: Seq<Boxscore>) -> Seq<
    Seq<char>,
>
    decreases players.len(),
{
    if players.len() == 0 {
        Seq::empty()
    } else {
        let rest = unresolved_names(players.drop_last(), boxscores);
        if snippet_source(players.last(), boxscores) is Unresolved {
            rest.push(players.last().name@)
        } else {
            rest
        }
    }
}

/// `s` is the snippet reported for `rp`. For a pitching line, the notable
/// flag follows from the innings band that `innings_band` gives for the
/// innings figure.
pub open spec fn snippet_fits<F: Fn(&String) -> InningsBand>(
    s: PlayerSnippet,
    rp: RosterPlayer,
    boxscores: Seq<Boxscore>,
    innings_band: F,
) -> bool {
    &&& s.player_name@ == rp.name@
    &&& match snippet_source(rp, boxscores) {
        SnippetSource::Injury => s.line@ == injury_line(rp.roster_status@) && !s.notable,
        SnippetSource::Unresolved => false,
        SnippetSource::Batting(l) => s.line@ == join_with(batter_parts(l), ", "@) && s.notable
            == batter_notable(l),
        SnippetSource::Pitching(l) => s.line@ == join_with(pitcher_parts(l), ", "@) && exists|
            b: InningsBand,
        |
            call_ensures(innings_band, (&l.innings_pitched,), b) && s.notable == pitcher_notable(
                l,
                b,
            ),
        SnippetSource::DidNotPlay => s.line@ == "DNP"@ && !s.notable,
    }
}

// ─── Specs: unresolved players ─────────────────────────────────────────────

/// `m` followed by the names of `s` not already present, each at its first
/// occurrence in `s`.
pub open spec fn with_new_names(m: Seq<Seq<char>>, s: Seq<Seq<char>>) -> Seq<Seq<char>>
    decreases s.len(),
{
    if s.len() == 0 {
        m
    } else {
        let r = with_new_names(m, s.drop_last());
        if r.contains(s.last()) {
            r
        } else {
            r.push(s.last())
        }
    }
}

/// The names of `s` with every repeat of an earlier name removed: each name
/// once, at its first occurrence.
pub open spec fn first_occurrences(s: Seq<Seq<char>>) -> Seq<Seq<char>> {
    with_new_names(Seq::empty(), s)
}

/// The names of `a` then `b`, each once, in first-seen order.
pub open spec fn merged_names(a: Seq<Seq<char>>, b: Seq<Seq<char>>) -> Seq<Seq<char>> {
    first_occurrences(a + b)
}

/// Some occurrence of `x` in `s` comes before every occurrence of `y`.
pub open spec fn seen_before(s: Seq<Seq<char>>, x: Seq<char>, y: Seq<char>) -> bool {
    forall|q: int|
        0 <= q < s.len() && #[trigger] s[q] == y ==> exists|p: int| 0 <= p < q && s[p] == x
}

/// The note attached to a briefing with `n` unresolved players.
pub open spec fn unresolved_note_text(n: nat) -> Option<Seq<char>> {
    if n == 0 {
        None
    } else if n == 1 {
        Some(
            "1 roster player could not be resolved to an MLB ID (Fantrax→MLB crosswalk pending, see #11)"@,
        )
    } else {
        Some(
            decimal(n)
                + " roster players could not be resolved to MLB IDs (Fantrax→MLB crosswalk pending, see #11)"@,
        )
    }
}

/// Active (non-injured) players that resolve to an MLB ID, in order.
pub open spec fn resolvable_players(players: Seq<RosterPlayer>) -> Seq<RosterPlayer>
    decreases players.len(),
{
    if players.len() == 0 {
        players
    } else {
        let rest = resolvable_players(players.drop_last());
        let p = players.last();
        if !is_injured(p.roster_status@) && mlb_id_of(p) is Some {
            rest.push(p)
        } else {
            rest
        }
    }
}

/// Names of active (non-injured) players that do not resolve, in order.
pub open spec fn unresolvable_names(players: Seq<RosterPlayer>) -> Seq<Seq<char>>
    decreases players.len(),
{
    if players.len() == 0 {
        Seq::empty()
    } else {
        let rest = unresolvable_names(players.drop_last());
        let p = players.last();
        if !is_injured(p.roster_status@) && mlb_id_of(p) is None {
            rest.push(p.name@)
        } else {
            rest
        }
    }
}

// ─── Specs: action items ───────────────────────────────────────────────────

/// "Move X to IL or bench" for each injured player in an active slot.
pub open spec fn active_injury_items(players: Seq<RosterPlayer>) -> Seq<
    (Urgency, Seq<char>, Seq<char>),
>
    decreases players.len(),
{
    if players.len() == 0 {
        Seq::empty()
    } else {
        let rest = active_injury_items(players.drop_last());
        let p = players.last();
        if is_injured(p.roster_status@) && !is_bench_or_il(p.position@) {
            rest.push(
                (
                    Urgency::Now,
                    "Move "@ + p.name@ + " to IL or bench"@,
                    p.name@ + " has status '"@ + p.roster_status@
                        + "' but is in an active lineup slot ("@ + p.position@ + ")"@,
                ),
            )
        } else {
            rest
        }
    }
}

/// "Monitor X injury status" for each injured player (best-ball leagues).
pub open spec fn injury_watch_items(players: Seq<RosterPlayer>) -> Seq<
    (Urgency, Seq<char>, Seq<char>),
>
    decreases players.len(),
{
    if players.len() == 0 {
        Seq::empty()
    } else {
        let rest = injury_watch_items(players.drop_last());
        let p = players.last();
        if is_injured(p.roster_status@) {
            rest.push(
                (
                    Urgency::Monitor,
                    "Monitor "@ + p.name@ + " injury status"@,
                    p.name@ + " is "@ + p.roster_status@ + " — may need to pick up a replacement"@,
                ),
            )
        } else {
            rest
        }
    }
}

/// "Consider sitting X" for each platoon recommendation to sit.
pub open spec fn sit_items(recs: Seq<StartSitRecommendation>) -> Seq<
    (Urgency, Seq<char>, Seq<char>),
>
    decreases recs.len(),
{
    if recs.len() == 0 {
        Seq::empty()
    } else {
        let rest = sit_items(recs.drop_last());
        let r = recs.last();
        if r.recommendation == Recommendation::Sit {
            rest.push((Urgency::Soon, "Consider sitting "@ + r.player_name@, r.reason@))
        } else {
            rest
        }
    }
}

/// "Check X — may not have a game today" for each batter to monitor.
pub open spec fn monitor_items(recs: Seq<StartSitRecommendation>) -> Seq<
    (Urgency, Seq<char>, Seq<char>),
>
    decreases recs.len(),
{
    if recs.len() == 0 {
        Seq::empty()
    } else {
        let rest = monitor_items(recs.drop_last());
        let r = recs.last();
        if r.recommendation == Recommendation::Monitor {
            rest.push(
                (
                    Urgency::Monitor,
                    "Check "@ + r.player_name@ + " — may not have a game today"@,
                    r.reason@,
                ),
            )
        } else {
            rest
        }
    }
}

pub open spec fn weekly_item() -> (Urgency, Seq<char>, Seq<char>) {
    (
        Urgency::Monitor,
        "Review weekly matchup schedule"@,
        "Weekly lineup locks — check how many games each player has this week"@,
    )
}

/// The action items for today: injured players in active slots first, then
/// the advice that the league's lineup type calls for.
pub open spec fn action_items(
    players: Seq<RosterPlayer>,
    lineup: LineupType,
    recs: Seq<StartSitRecommendation>,
) -> Seq<(Urgency, Seq<char>, Seq<char>)> {
    active_injury_items(players) + match lineup {
        LineupType::Daily => sit_items(recs) + monitor_items(recs),
        LineupType::Weekly => seq![weekly_item()],
        LineupType::Bestball => injury_watch_items(players),
        LineupType::Worstball => injury_watch_items(players),
    }
}

pub open spec fn item_views(items: Seq<ActionItem>) -> Seq<(Urgency, Seq<char>, Seq<char>)> {
    items.map_values(|i: ActionItem| i@)
}

pub open spec fn snippet_views(s: Seq<PlayerSnippet>) -> Seq<(Seq<char>, Seq<char>, bool)> {
    s.map_values(|x: PlayerSnippet| x@)
}

// ─── MLB ID resolution ─────────────────────────────────────────────────────

/// Resolve a Fantrax roster player to an MLB Stats API person ID.
///
/// There is no Fantrax→MLB ID crosswalk, so this always returns `None`.
/// Fantrax player IDs are alphanumeric strings (e.g. "03pit") in a separate
/// ID space from MLB's numeric person IDs; parsing an all-digit Fantrax ID
/// as a number would silently fetch a different player's record. Callers
/// treat `None` as "skip and report", never as "DNP".
pub fn resolve_mlb_id(player: &RosterPlayer) -> (r: Option<u64>)
    ensures
        r == mlb_id_of(*player),
{
    None
}

/// Merge unresolved-player name lists from multiple briefing layers,
/// deduplicating while preserving first-seen order.
pub fn merge_unresolved(a: Vec<String>, b: Vec<String>) -> (r: Vec<String>)
    ensures
        r.deep_view() == merged_names(a.deep_view(), b.deep_view()),
        r.deep_view().no_duplicates(),
        forall|x: Seq<char>|
            #[trigger] r.deep_view().contains(x) <==> (a.deep_view().contains(x)
                || b.deep_view().contains(x)),
{
    let mut merged: Vec<String> = Vec::new();
    assert(merged.deep_view() =~= Seq::<Seq<char>>::empty());
    add_new_names(&mut merged, &a);
    assert(merged.deep_view() == with_new_names(Seq::empty(), a.deep_view()));
    add_new_names(&mut merged, &b);
    assert(merged.deep_view() == with_new_names(
        with_new_names(Seq::empty(), a.deep_view()),
        b.deep_view(),
    ));
    proof {
        lemma_with_new_names_concat(Seq::empty(), a.deep_view(), b.deep_view());
        law_merge_has_no_duplicates(a.deep_view(), b.deep_view());
        law_merge_is_union(a.deep_view(), b.deep_view());
    }
    merged
}

/// Appends each name of `names` that `merged` does not hold yet.
fn add_new_names(merged: &mut Vec<String>, names: &Vec<String>)
    ensures
        final(merged).deep_view() == with_new_names(old(merged).deep_view(), names.deep_view()),
{
    let ghost mv = merged.deep_view();
    let ghost nv = names.deep_view();
    let mut i: usize = 0;
    while i < names.len()
        invariant
            i <= names@.len(),
            nv == names.deep_view(),
            merged.deep_view() == with_new_names(mv, nv.take(i as int)),
        decreases names@.len() - i,
    {
        assert(nv.take(i + 1).drop_last() =~= nv.take(i as int));
        assert(nv.take(i + 1).last() == names@[i as int]@);
        let found = contains_name(merged, &names[i]);
        if !found {
            let ghost before = merged.deep_view();
            merged.push(names[i].clone());
            assert(merged.deep_view() =~= before.push(names@[i as int]@));
        }
        i = i + 1;
    }
    assert(nv.take(i as int) =~= nv);
}

/// Does `names` hold a string equal to `name`?
fn contains_name(names: &Vec<String>, name: &String) -> (r: bool)
    ensures
        r == names.deep_view().contains(name@),
{
    let mut i: usize = 0;
    while i < names.len()
        invariant
            i <= names@.len(),
            forall|j: int| 0 <= j < i ==> names@[j]@ != name@,
        decreases names@.len() - i,
    {
        if names[i] == *name {
            assert(names.deep_view()[i as int] == name@);
            return true;
        }
        i = i + 1;
    }
    proof {
        if names.deep_view().contains(name@) {
            let j = choose|j: int| 0 <= j < names.deep_view().len() && names.deep_view()[j] == name@;
            assert(names.deep_view()[j] == names@[j]@);
        }
    }
    false
}

/// Build the human-readable annotation for unresolved roster players.
pub fn unresolved_note(unresolved: &[String]) -> (r: Option<String>)
    ensures
        match unresolved_note_text(unresolved@.len() as nat) {
            None => r is None,
            Some(t) => r is Some && r->0@ == t,
        },
{
    let n = unresolved.len();
    if n == 0 {
        None
    } else if n == 1 {
        Some(
            owned(
                "1 roster player could not be resolved to an MLB ID (Fantrax→MLB crosswalk pending, see #11)",
            ),
        )
    } else {
        Some(
            num_label(
                n as u64,
                " roster players could not be resolved to MLB IDs (Fantrax→MLB crosswalk pending, see #11)",
            ),
        )
    }
}

// ─── Layer 1: What happened ────────────────────────────────────────────────

/// The index of the first team with this ID.
pub fn find_team(teams: &Vec<TeamRoster>, team_id: &TeamId) -> (r: Option<usize>)
    ensures
        match r {
            Some(i) => i < teams@.len() && teams@[i as int].team_id@ == team_id@ && forall|j: int|
                0 <= j < i ==> teams@[j].team_id@ != team_id@,
            None => forall|j: int| 0 <= j < teams@.len() ==> teams@[j].team_id@ != team_id@,
        },
{
    let mut i: usize = 0;
    while i < teams.len()
        invariant
            i <= teams@.len(),
            forall|j: int| 0 <= j < i ==> teams@[j].team_id@ != team_id@,
        decreases teams@.len() - i,
    {
        if teams[i].team_id == *team_id {
            return Some(i);
        }
        i = i + 1;
    }
    None
}

/// The error message for a team missing from a league's rosters.
pub fn team_not_found_message(team_id: &TeamId, league_id: &str) -> (r: String)
    ensures
        r@ == "team '"@ + team_id@ + "' not found in league '"@ + league_id@ + "'"@,
{
    let mut s = owned("team '");
    s.append(team_id.as_str());
    s.append("' not found in league '");
    s.append(league_id);
    s.append("'");
    s
}

/// Is any active (non-injured) player resolvable to an MLB ID? Box scores
/// are only worth fetching when one is.
pub fn any_resolvable(players: &Vec<RosterPlayer>) -> (r: bool)
    ensures
        r == exists|i: int|
            0 <= i < players@.len() && !is_injured(#[trigger] players@[i].roster_status@)
                && mlb_id_of(players@[i]) is Some,
{
    let mut i: usize = 0;
    while i < players.len()
        invariant
            i <= players@.len(),
            forall|j: int|
                0 <= j < i ==> !(!is_injured(#[trigger] players@[j].roster_status@) && mlb_id_of(
                    players@[j],
                ) is Some),
        decreases players@.len() - i,
    {
        if !is_injured_status(players[i].roster_status.as_str()) && resolve_mlb_id(
            &players[i],
        ).is_some() {
            return true;
        }
        i = i + 1;
    }
    false
}

/// Which games get a box score fetch: completed ("Final") and in-progress
/// ("Live") ones. The result says whether the game is final.
pub fn boxscore_fetch(status: &str) -> (r: Option<bool>)
    ensures
        r == (if status@ == "Final"@ || status@ == "Live"@ {
            Some(status@ == "Final"@)
        } else {
            None
        }),
{
    let is_final = text_eq(status, "Final");
    if is_final || text_eq(status, "Live") {
        Some(is_final)
    } else {
        None
    }
}

/// For each roster player, find their line in yesterday's boxscores.
///
/// Players that cannot be resolved to an MLB ID are skipped and returned in
/// the second tuple element: a missing crosswalk entry must not be reported
/// as "DNP". "DNP" is reserved for resolvable players with no boxscore line.
/// `innings_band` reads a pitcher's innings-pitched figure.
pub fn snippets_from_boxscores<F: Fn(&String) -> InningsBand>(
    players: &[RosterPlayer],
    boxscores: &[Boxscore],
    innings_band: &F,
) -> (r: (Vec<PlayerSnippet>, Vec<String>))
    requires
        forall|s: &String| call_requires(*innings_band, (s,)),
    ensures
        r.0@.len() == reported_players(players@, boxscores@).len(),
        forall|i: int|
            0 <= i < r.0@.len() ==> snippet_fits(
                #[trigger] r.0@[i],
                reported_players(players@, boxscores@)[i],
                boxscores@,
                *innings_band,
            ),
        r.1.deep_view() == unresolved_names(players@, boxscores@),
{
    let mut snippets: Vec<PlayerSnippet> = Vec::new();
    let mut unresolved: Vec<String> = Vec::new();
    let mut k: usize = 0;
    while k < players.len()
        invariant
            k <= players@.len(),
            forall|s: &String| call_requires(*innings_band, (s,)),
            snippets@.len() == reported_players(players@.take(k as int), boxscores@).len(),
            forall|i: int|
                0 <= i < snippets@.len() ==> snippet_fits(
                    #[trigger] snippets@[i],
                    reported_players(players@.take(k as int), boxscores@)[i],
                    boxscores@,
                    *innings_band,
                ),
            unresolved.deep_view() == unresolved_names(players@.take(k as int), boxscores@),
        decreases players@.len() - k,
    {
        let ghost prev = players@.take(k as int);
        assert(players@.take(k + 1).drop_last() =~= prev);
        assert(players@.take(k + 1).last() == players@[k as int]);
        let rp = &players[k];
        if is_injured_status(rp.roster_status.as_str()) {
            snippets.push(
                PlayerSnippet {
                    player_name: rp.name.clone(),
                    line: format_injury_line(rp.roster_status.as_str()),
                    notable: false,
                },
            );
        } else {
            match resolve_mlb_id(rp) {
                None => {
                    let ghost before = unresolved.deep_view();
                    unresolved.push(rp.name.clone());
                    assert(unresolved.deep_view() =~= before.push(rp.name@));
                },
                Some(pid) => {
                    let (line, notable) = line_from_boxscores(boxscores, pid, innings_band);
                    snippets.push(PlayerSnippet { player_name: rp.name.clone(), line, notable });
                },
            }
        }
        k = k + 1;
    }
    assert(players@.take(k as int) =~= players@);
    (snippets, unresolved)
}

/// The snippet text and notable flag for a resolvable player: the first box
/// score line found, or "DNP".
fn line_from_boxscores<F: Fn(&String) -> InningsBand>(
    boxscores: &[Boxscore],
    pid: u64,
    innings_band: &F,
) -> (r: (String, bool))
    requires
        forall|s: &String| call_requires(*innings_band, (s,)),
    ensures
        match line_source(boxscores@, pid) {
            SnippetSource::Batting(l) => r.0@ == join_with(batter_parts(l), ", "@) && r.1
                == batter_notable(l),
            SnippetSource::Pitching(l) => r.0@ == join_with(pitcher_parts(l), ", "@) && exists|
                b: InningsBand,
            |
                call_ensures(*innings_band, (&l.innings_pitched,), b) && r.1 == pitcher_notable(
                    l,
                    b,
                ),
            SnippetSource::DidNotPlay => r.0@ == "DNP"@ && !r.1,
            _ => false,
        },
{
    let mut i: usize = 0;
    assert(boxscores@.skip(0) =~= boxscores@);
    while i < boxscores.len()
        invariant
            i <= boxscores@.len(),
            forall|s: &String| call_requires(*innings_band, (s,)),
            line_source(boxscores@, pid) == line_source(boxscores@.skip(i as int), pid),
        decreases boxscores@.len() - i,
    {
        assert(boxscores@.skip(i as int)[0] == boxscores@[i as int]);
        assert(boxscores@.skip(i as int).drop_first() =~= boxscores@.skip(i + 1));
        let bs = &boxscores[i];
        match find_batter_line(bs, pid) {
            Some(line) => {
                let (formatted, notable) = format_batter_snippet(&line);
                return (formatted, notable);
            },
            None => {},
        }
        match find_pitcher_line(bs, pid) {
            Some(line) => {
                let band = innings_band(&line.innings_pitched);
                let (formatted, notable) = format_pitcher_snippet(&line, band);
                return (formatted, notable);
            },
            None => {},
        }
        i = i + 1;
    }
    assert(boxscores@.skip(i as int).len() == 0);
    (owned("DNP"), false)
}

/// The first batting line (away batters, then home batters) for the player.
pub fn find_batter_line(boxscore: &Boxscore, player_id: u64) -> (r: Option<BatterLine>)
    ensures
        r == first_batter(batters_of_box(*boxscore), player_id),
{
    let ghost all = batters_of_box(*boxscore);
    let away = &boxscore.away_batters;
    let home = &boxscore.home_batters;
    let mut i: usize = 0;
    assert(away@.skip(0) + home@ =~= all);
    while i < away.len()
        invariant
            i <= away@.len(),
            all == away@ + home@,
            all == batters_of_box(*boxscore),
            first_batter(all, player_id) == first_batter(away@.skip(i as int) + home@, player_id),
        decreases away@.len() - i,
    {
        assert((away@.skip(i as int) + home@)[0] == away@[i as int]);
        assert((away@.skip(i as int) + home@).drop_first() =~= away@.skip(i + 1) + home@);
        if away[i].player_id == player_id {
            return Some(away[i].clone());
        }
        i = i + 1;
    }
    assert(away@.skip(i as int) + home@ =~= home@.skip(0));
    let mut j: usize = 0;
    while j < home.len()
        invariant
            j <= home@.len(),
            all == batters_of_box(*boxscore),
            first_batter(all, player_id) == first_batter(home@.skip(j as int), player_id),
        decreases home@.len() - j,
    {
        assert(home@.skip(j as int)[0] == home@[j as int]);
        assert(home@.skip(j as int).drop_first() =~= home@.skip(j + 1));
        if home[j].player_id == player_id {
            return Some(home[j].clone());
        }
        j = j + 1;
    }
    None
}

/// The first pitching line (away pitchers, then home pitchers) for the player.
pub fn find_pitcher_line(boxscore: &Boxscore, player_id: u64) -> (r: Option<PitcherLine>)
    ensures
        r == first_pitcher(pitchers_of_box(*boxscore), player_id),
{
    let ghost all = pitchers_of_box(*boxscore);
    let away = &boxscore.away_pitchers;
    let home = &boxscore.home_pitchers;
    let mut i: usize = 0;
    assert(away@.skip(0) + home@ =~= all);
    while i < away.len()
        invariant
            i <= away@.len(),
            all == away@ + home@,
            all == pitchers_of_box(*boxscore),
            first_pitcher(all, player_id) == first_pitcher(away@.skip(i as int) + home@, player_id),
        decreases away@.len() - i,
    {
        assert((away@.skip(i as int) + home@)[0] == away@[i as int]);
        assert((away@.skip(i as int) + home@).drop_first() =~= away@.skip(i + 1) + home@);
        if away[i].player_id == player_id {
            return Some(away[i].clone());
        }
        i = i + 1;
    }
    assert(away@.skip(i as int) + home@ =~= home@.skip(0));
    let mut j: usize = 0;
    while j < home.len()
        invariant
            j <= home@.len(),
            all == pitchers_of_box(*boxscore),
            first_pitcher(all, player_id) == first_pitcher(home@.skip(j as int), player_id),
        decreases home@.len() - j,
    {
        assert(home@.skip(j as int)[0] == home@[j as int]);
        assert(home@.skip(j as int).drop_first() =~= home@.skip(j + 1));
        if home[j].player_id == player_id {
            return Some(home[j].clone());
        }
        j = j + 1;
    }
    None
}

/// "n label", or `one` alone when the count is one.
fn count_text(n: u32, one: &str, many: &str) -> (r: String)
    ensures
        r@ == count_part(n, one@, many@),
{
    if n == 1 {
        owned(one)
    } else {
        num_label(n as u64, many)
    }
}

/// Format a batter's box score line into a human-readable snippet.
///
/// Returns (formatted_line, is_notable).
pub fn format_batter_snippet(line: &BatterLine) -> (r: (String, bool))
    ensures
        r.0@ == join_with(batter_parts(*line), ", "@),
        r.1 == batter_notable(*line),
        r.1 <==> (line.hits >= 3 || line.home_runs >= 1 || line.rbi >= 3 || line.stolen_bases
            >= 2),
{
    let mut parts: Vec<String> = Vec::new();
    let mut first = num_label(line.hits as u64, "-");
    push_decimal(&mut first, line.at_bats as u64);
    parts.push(first);
    let ghost p0 = parts.deep_view();
    assert(p0 =~= seq![decimal(line.hits as nat) + "-"@ + decimal(line.at_bats as nat)]);
    if line.home_runs > 0 {
        parts.push(count_text(line.home_runs, "HR", " HR"));
    }
    let ghost p1 = parts.deep_view();
    assert(p1 =~= (if line.home_runs > 0 {
        p0.push(count_part(line.home_runs, "HR"@, " HR"@))
    } else {
        p0
    }));
    if line.doubles > 0 {
        parts.push(count_text(line.doubles, "2B", " 2B"));
    }
    let ghost p2 = parts.deep_view();
    assert(p2 =~= (if line.doubles > 0 {
        p1.push(count_part(line.doubles, "2B"@, " 2B"@))
    } else {
        p1
    }));
    if line.triples > 0 {
        parts.push(count_text(line.triples, "3B", " 3B"));
    }
    let ghost p3 = parts.deep_view();
    assert(p3 =~= (if line.triples > 0 {
        p2.push(count_part(line.triples, "3B"@, " 3B"@))
    } else {
        p2
    }));
    if line.rbi > 0 {
        parts.push(num_label(line.rbi as u64, " RBI"));
    }
    let ghost p4 = parts.deep_view();
    assert(p4 =~= (if line.rbi > 0 {
        p3.push(decimal(line.rbi as nat) + " RBI"@)
    } else {
        p3
    }));
    if line.runs > 0 {
        parts.push(num_label(line.runs as u64, " R"));
    }
    let ghost p5 = parts.deep_view();
    assert(p5 =~= (if line.runs > 0 {
        p4.push(decimal(line.runs as nat) + " R"@)
    } else {
        p4
    }));
    if line.walks > 0 {
        parts.push(num_label(line.walks as u64, " BB"));
    }
    let ghost p6 = parts.deep_view();
    assert(p6 =~= (if line.walks > 0 {
        p5.push(decimal(line.walks as nat) + " BB"@)
    } else {
        p5
    }));
    if line.stolen_bases > 0 {
        parts.push(num_label(line.stolen_bases as u64, " SB"));
    }
    assert(parts.deep_view() =~= batter_parts(*line));
    let notable = line.hits >= 3 || line.home_runs > 0 || line.rbi >= 3 || line.stolen_bases >= 2;
    (join_strings(&parts, ", "), notable)
}

/// Format a pitcher's box score line into a human-readable snippet; `band`
/// places the innings pitched against the 6- and 8-inning marks.
///
/// Returns (formatted_line, is_notable).
pub fn format_pitcher_snippet(line: &PitcherLine, band: InningsBand) -> (r: (String, bool))
    ensures
        r.0@ == join_with(pitcher_parts(*line), ", "@),
        r.1 == pitcher_notable(*line, band),
{
    let mut parts: Vec<String> = Vec::new();
    let mut ip = line.innings_pitched.clone();
    ip.append(" IP");
    parts.push(ip);
    let ghost p0 = parts.deep_view();
    assert(p0 =~= seq![line.innings_pitched@ + " IP"@]);
    match &line.decision {
        Some(decision) => {
            let mut d = owned("(");
            d.append(decision.as_str());
            d.append(")");
            parts.push(d);
        },
        None => {},
    }
    let ghost p1 = parts.deep_view();
    assert(p1 =~= (match line.decision {
        Some(d) => p0.push("("@ + d@ + ")"@),
        None => p0,
    }));
    parts.push(num_label(line.strikeouts as u64, " K"));
    parts.push(num_label(line.hits as u64, " H"));
    parts.push(num_label(line.earned_runs as u64, " ER"));
    let ghost p2 = parts.deep_view();
    assert(p2 =~= p1.push(decimal(line.strikeouts as nat) + " K"@).push(
        decimal(line.hits as nat) + " H"@,
    ).push(decimal(line.earned_runs as nat) + " ER"@));
    if line.walks > 0 {
        parts.push(num_label(line.walks as u64, " BB"));
    }
    let ghost p3 = parts.deep_view();
    assert(p3 =~= (if line.walks > 0 {
        p2.push(decimal(line.walks as nat) + " BB"@)
    } else {
        p2
    }));
    if line.home_runs > 0 {
        parts.push(num_label(line.home_runs as u64, " HR"));
    }
    assert(parts.deep_view() =~= pitcher_parts(*line));
    let six_plus = match band {
        InningsBand::BelowSix => false,
        _ => true,
    };
    let eight_plus = match band {
        InningsBand::EightOrMore => true,
        _ => false,
    };
    let notable = line.strikeouts >= 10 || (six_plus && line.earned_runs <= 3) || eight_plus;
    (join_strings(&parts, ", "), notable)
}

/// Is the roster status an injury status (IL, DL, DTD or OUT, in any case)?
pub fn is_injured_status(status: &str) -> (r: bool)
    ensures
        r == is_injured(status@),
        is_ascii_text(status@) ==> r == injury_code(ascii_upper_text(status@)),
{
    let s = to_upper(status);
    is_injury_code(s.as_str())
}

/// Does an (already uppercased) status mark an injury?
pub fn is_injury_code(upper: &str) -> (r: bool)
    ensures
        r == injury_code(upper@),
{
    contains(upper, "IL") || contains(upper, "DL") || contains(upper, "DTD") || contains(upper, "OUT")
}

/// The status line for an injured player, without redundant labels like
/// "IL (IL10)".
pub fn format_injury_line(status: &str) -> (r: String)
    ensures
        r@ == injury_line(status@),
        is_ascii_text(status@) ==> r@ == injury_line_from(status@, ascii_upper_text(status@)),
{
    let s = to_upper(status);
    injury_line_for(status, s.as_str())
}

/// The status line for an injured player whose status uppercases to
/// `upper`.
pub fn injury_line_for(status: &str, upper: &str) -> (r: String)
    ensures
        r@ == injury_line_from(status@, upper@),
{
    let s = upper;
    if starts_with(s, "IL") || starts_with(s, "DTD") || starts_with(s, "OUT") {
        owned(status)
    } else if contains(s, "IL") {
        let mut out = owned("IL (");
        out.append(status);
        out.append(")");
        out
    } else if contains(s, "DTD") {
        let mut out = owned("DTD (");
        out.append(status);
        out.append(")");
        out
    } else {
        let mut out = owned("OUT (");
        out.append(status);
        out.append(")");
        out
    }
}

// ─── Layer 2: What to do ───────────────────────────────────────────────────

/// Partition active (non-injured) roster players by whether they resolve to
/// an MLB ID. Returns (resolved players with their MLB IDs, names of players
/// that could not be resolved).
pub fn partition_resolvable(players: &[RosterPlayer]) -> (r: (Vec<(&RosterPlayer, u64)>, Vec<
    String,
>))
    ensures
        r.0@.len() == resolvable_players(players@).len(),
        forall|i: int|
            0 <= i < r.0@.len() ==> *(#[trigger] r.0@[i]).0 == resolvable_players(players@)[i]
                && mlb_id_of(*r.0@[i].0) == Some(r.0@[i].1),
        r.1.deep_view() == unresolvable_names(players@),
{
    let mut resolved: Vec<(&RosterPlayer, u64)> = Vec::new();
    let mut unresolved: Vec<String> = Vec::new();
    let mut k: usize = 0;
    while k < players.len()
        invariant
            k <= players@.len(),
            resolved@.len() == resolvable_players(players@.take(k as int)).len(),
            forall|i: int|
                0 <= i < resolved@.len() ==> *(#[trigger] resolved@[i]).0 == resolvable_players(
                    players@.take(k as int),
                )[i] && mlb_id_of(*resolved@[i].0) == Some(resolved@[i].1),
            unresolved.deep_view() == unresolvable_names(players@.take(k as int)),
        decreases players@.len() - k,
    {
        assert(players@.take(k + 1).drop_last() =~= players@.take(k as int));
        assert(players@.take(k + 1).last() == players@[k as int]);
        let rp = &players[k];
        if !is_injured_status(rp.roster_status.as_str()) {
            match resolve_mlb_id(rp) {
                Some(mlb_id) => resolved.push((rp, mlb_id)),
                None => {
                    let ghost before = unresolved.deep_view();
                    unresolved.push(rp.name.clone());
                    assert(unresolved.deep_view() =~= before.push(rp.name@));
                },
            }
        }
        k = k + 1;
    }
    assert(players@.take(k as int) =~= players@);
    (resolved, unresolved)
}

/// Check if a position string represents a bench or IL slot.
pub fn is_bench_or_il_slot(position: &str) -> (r: bool)
    ensures
        r == is_bench_or_il(position@),
        is_ascii_text(position@) ==> r == bench_code(ascii_upper_text(position@)),
{
    let p = to_upper(position);
    is_bench_code(p.as_str())
}

/// Is an (already uppercased) position a bench or injured-list slot?
pub fn is_bench_code(upper: &str) -> (r: bool)
    ensures
        r == bench_code(upper@),
{
    contains(upper, "BN") || contains(upper, "BENCH") || contains(upper, "IL") || contains(upper, "DL")
}

/// The action items for today, given the team's roster, the league's lineup
/// type, and (for daily leagues) the platoon recommendations for the batters
/// that could be looked up.
pub fn what_to_do_items(
    players: &Vec<RosterPlayer>,
    lineup: LineupType,
    recs: &Vec<StartSitRecommendation>,
) -> (r: Vec<ActionItem>)
    ensures
        item_views(r@) == action_items(players@, lineup, recs@),
{
    let mut items: Vec<ActionItem> = Vec::new();
    push_active_injury_items(players, &mut items);
    match lineup {
        LineupType::Daily => {
            push_sit_items(recs, &mut items);
            push_monitor_items(recs, &mut items);
        },
        LineupType::Weekly => {
            let ghost before = item_views(items@);
            items.push(
                ActionItem {
                    urgency: Urgency::Monitor,
                    action: owned("Review weekly matchup schedule"),
                    reason: owned(
                        "Weekly lineup locks — check how many games each player has this week",
                    ),
                },
            );
            assert(item_views(items@) =~= before.push(weekly_item()));
        },
        LineupType::Bestball => {
            push_injury_watch_items(players, &mut items);
        },
        LineupType::Worstball => {
            push_injury_watch_items(players, &mut items);
        },
    }
    assert(item_views(items@) =~= action_items(players@, lineup, recs@));
    items
}

fn push_active_injury_items(players: &Vec<RosterPlayer>, items: &mut Vec<ActionItem>)
    ensures
        item_views(final(items)@) == item_views(old(items)@) + active_injury_items(players@),
{
    let ghost start = item_views(items@);
    let mut k: usize = 0;
    while k < players.len()
        invariant
            k <= players@.len(),
            item_views(items@) == start + active_injury_items(players@.take(k as int)),
        decreases players@.len() - k,
    {
        assert(players@.take(k + 1).drop_last() =~= players@.take(k as int));
        assert(players@.take(k + 1).last() == players@[k as int]);
        let rp = &players[k];
        if is_injured_status(rp.roster_status.as_str()) && !is_bench_or_il_slot(
            rp.position.as_str(),
        ) {
            let mut action = owned("Move ");
            action.append(rp.name.as_str());
            action.append(" to IL or bench");
            let mut reason = rp.name.clone();
            reason.append(" has status '");
            reason.append(rp.roster_status.as_str());
            reason.append("' but is in an active lineup slot (");
            reason.append(rp.position.as_str());
            reason.append(")");
            let ghost before = item_views(items@);
            items.push(ActionItem { urgency: Urgency::Now, action, reason });
            assert(item_views(items@) =~= before.push(items@.last()@));
        }
        k = k + 1;
        assert(item_views(items@) =~= start + active_injury_items(players@.take(k as int)));
    }
    assert(players@.take(k as int) =~= players@);
}

fn push_injury_watch_items(players: &Vec<RosterPlayer>, items: &mut Vec<ActionItem>)
    ensures
        item_views(final(items)@) == item_views(old(items)@) + injury_watch_items(players@),
{
    let ghost start = item_views(items@);
    let mut k: usize = 0;
    while k < players.len()
        invariant
            k <= players@.len(),
            item_views(items@) == start + injury_watch_items(players@.take(k as int)),
        decreases players@.len() - k,
    {
        assert(players@.take(k + 1).drop_last() =~= players@.take(k as int));
        assert(players@.take(k + 1).last() == players@[k as int]);
        let rp = &players[k];
        if is_injured_status(rp.roster_status.as_str()) {
            let mut action = owned("Monitor ");
            action.append(rp.name.as_str());
            action.append(" injury status");
            let mut reason = rp.name.clone();
            reason.append(" is ");
            reason.append(rp.roster_status.as_str());
            reason.append(" — may need to pick up a replacement");
            let ghost before = item_views(items@);
            items.push(ActionItem { urgency: Urgency::Monitor, action, reason });
            assert(item_views(items@) =~= before.push(items@.last()@));
        }
        k = k + 1;
        assert(item_views(items@) =~= start + injury_watch_items(players@.take(k as int)));
    }
    assert(players@.take(k as int) =~= players@);
}

fn push_sit_items(recs: &Vec<StartSitRecommendation>, items: &mut Vec<ActionItem>)
    ensures
        item_views(final(items)@) == item_views(old(items)@) + sit_items(recs@),
{
    let ghost start = item_views(items@);
    let mut k: usize = 0;
    while k < recs.len()
        invariant
            k <= recs@.len(),
            item_views(items@) == start + sit_items(recs@.take(k as int)),
        decreases recs@.len() - k,
    {
        assert(recs@.take(k + 1).drop_last() =~= recs@.take(k as int));
        assert(recs@.take(k + 1).last() == recs@[k as int]);
        let rec = &recs[k];
        if rec.recommendation == Recommendation::Sit {
            let mut action = owned("Consider sitting ");
            action.append(rec.player_name.as_str());
            let ghost before = item_views(items@);
            items.push(ActionItem { urgency: Urgency::Soon, action, reason: rec.reason.clone() });
            assert(item_views(items@) =~= before.push(items@.last()@));
        }
        k = k + 1;
        assert(item_views(items@) =~= start + sit_items(recs@.take(k as int)));
    }
    assert(recs@.take(k as int) =~= recs@);
}

fn push_monitor_items(recs: &Vec<StartSitRecommendation>, items: &mut Vec<ActionItem>)
    ensures
        item_views(final(items)@) == item_views(old(items)@) + monitor_items(recs@),
{
    let ghost start = item_views(items@);
    let mut k: usize = 0;
    while k < recs.len()
        invariant
            k <= recs@.len(),
            item_views(items@) == start + monitor_items(recs@.take(k as int)),
        decreases recs@.len() - k,
    {
        assert(recs@.take(k + 1).drop_last() =~= recs@.take(k as int));
        assert(recs@.take(k + 1).last() == recs@[k as int]);
        let rec = &recs[k];
        if rec.recommendation == Recommendation::Monitor {
            let mut action = owned("Check ");
            action.append(rec.player_name.as_str());
            action.append(" — may not have a game today");
            let ghost before = item_views(items@);
            items.push(
                ActionItem { urgency: Urgency::Monitor, action, reason: rec.reason.clone() },
            );
            assert(item_views(items@) =~= before.push(items@.last()@));
        }
        k = k + 1;
        assert(item_views(items@) =~= start + monitor_items(recs@.take(k as int)));
    }
    assert(recs@.take(k as int) =~= recs@);
}

// ─── Laws ──────────────────────────────────────────────────────────────────

/// Every roster player is accounted for exactly once in the "what happened"
/// layer: either with a snippet or by name among the unresolved.
pub proof fn law_every_player_accounted_once(players: Seq<RosterPlayer>, boxscores: Seq<Boxscore>)
    ensures
        reported_players(players, boxscores).len() + unresolved_names(players, boxscores).len()
            == players.len(),
    decreases players.len(),
{
    if players.len() > 0 {
        law_every_player_accounted_once(players.drop_last(), boxscores);
    }
}

/// A player without an MLB ID is never reported as "DNP": "DNP" is kept for
/// resolvable players with no box-score line.
pub proof fn law_unresolved_never_dnp(rp: RosterPlayer, boxscores: Seq<Boxscore>)
    requires
        mlb_id_of(rp) is None,
    ensures
        !(snippet_source(rp, boxscores) is DidNotPlay),
        !(snippet_source(rp, boxscores) is Batting),
        !(snippet_source(rp, boxscores) is Pitching),
{
}

/// The players the "what happened" layer leaves unresolved are exactly the
/// active players that `partition_resolvable` reports as unresolvable, in
/// the same order, whatever the box scores hold.
pub proof fn law_unresolved_layers_agree(players: Seq<RosterPlayer>, boxscores: Seq<Boxscore>)
    ensures
        unresolved_names(players, boxscores) == unresolvable_names(players),
    decreases players.len(),
{
    if players.len() > 0 {
        law_unresolved_layers_agree(players.drop_last(), boxscores);
    }
}

proof fn lemma_with_new_names_contains(m: Seq<Seq<char>>, s: Seq<Seq<char>>)
    ensures
        with_new_names(m, s).len() >= m.len(),
        with_new_names(m, s).take(m.len() as int) == m,
        forall|x: Seq<char>|
            #[trigger] with_new_names(m, s).contains(x) <==> (m.contains(x) || s.contains(x)),
    decreases s.len(),
{
    if s.len() > 0 {
        let init = s.drop_last();
        lemma_with_new_names_contains(m, init);
        let w = with_new_names(m, init);
        let r = with_new_names(m, s);
        assert(r.take(m.len() as int) =~= w.take(m.len() as int));
        assert(init.push(s.last()) =~= s);
        assert forall|x: Seq<char>| #[trigger] r.contains(x) <==> (m.contains(x) || s.contains(x)) by {
            lemma_push_contains(init, s.last(), x);
            lemma_push_contains(w, s.last(), x);
        }
    }
}

proof fn lemma_push_contains(s: Seq<Seq<char>>, y: Seq<char>, x: Seq<char>)
    ensures
        s.push(y).contains(x) <==> (s.contains(x) || x == y),
{
    if s.contains(x) {
        let k = choose|k: int| 0 <= k < s.len() && s[k] == x;
        assert(s.push(y)[k] == x);
    }
    if x == y {
        assert(s.push(y)[s.len() as int] == x);
    }
    if s.push(y).contains(x) {
        let k = choose|k: int| 0 <= k < s.push(y).len() && s.push(y)[k] == x;
        if k < s.len() {
            assert(s[k] == x);
        }
    }
}

proof fn lemma_with_new_names_no_duplicates(m: Seq<Seq<char>>, s: Seq<Seq<char>>)
    requires
        m.no_duplicates(),
    ensures
        with_new_names(m, s).no_duplicates(),
    decreases s.len(),
{
    if s.len() > 0 {
        lemma_with_new_names_no_duplicates(m, s.drop_last());
        let w = with_new_names(m, s.drop_last());
        if !w.contains(s.last()) {
            let r = w.push(s.last());
            assert forall|i: int, j: int| 0 <= i < r.len() && 0 <= j < r.len() && i != j implies r[i]
                != r[j] by {
                if i == w.len() {
                    assert(r[j] == w[j]);
                } else if j == w.len() {
                    assert(r[i] == w[i]);
                }
            }
        }
    }
}

proof fn lemma_with_new_names_concat(m: Seq<Seq<char>>, a: Seq<Seq<char>>, b: Seq<Seq<char>>)
    ensures
        with_new_names(with_new_names(m, a), b) == with_new_names(m, a + b),
    decreases b.len(),
{
    if b.len() == 0 {
        assert(a + b =~= a);
    } else {
        lemma_with_new_names_concat(m, a, b.drop_last());
        assert((a + b).drop_last() =~= a + b.drop_last());
        assert((a + b).last() == b.last());
    }
}

proof fn lemma_first_occurrences_of_distinct(s: Seq<Seq<char>>)
    requires
        s.no_duplicates(),
    ensures
        first_occurrences(s) == s,
    decreases s.len(),
{
    if s.len() == 0 {
        assert(first_occurrences(s) =~= s);
    } else {
        let init = s.drop_last();
        assert forall|i: int, j: int| 0 <= i < init.len() && 0 <= j < init.len() && i != j implies init[i]
            != init[j] by {
            assert(init[i] == s[i] && init[j] == s[j]);
        }
        lemma_first_occurrences_of_distinct(init);
        if init.contains(s.last()) {
            let k = choose|k: int| 0 <= k < init.len() && init[k] == s.last();
            assert(s[k] == s[s.len() - 1]);
        }
        assert(init.push(s.last()) =~= s);
    }
}

proof fn lemma_first_occurrences_order(s: Seq<Seq<char>>)
    ensures
        forall|i: int, j: int|
            0 <= i < j < first_occurrences(s).len() ==> seen_before(
                s,
                #[trigger] first_occurrences(s)[i],
                #[trigger] first_occurrences(s)[j],
            ),
    decreases s.len(),
{
    if s.len() > 0 {
        let init = s.drop_last();
        let x = s.last();
        let n = s.len() - 1;
        lemma_first_occurrences_order(init);
        lemma_with_new_names_contains(Seq::empty(), init);
        let w = first_occurrences(init);
        let r = first_occurrences(s);
        assert(init.push(x) =~= s);
        assert forall|i: int, j: int| 0 <= i < j < r.len() implies seen_before(
            s,
            #[trigger] r[i],
            #[trigger] r[j],
        ) by {
            // r[i] is in w, hence occurs in init, before position n.
            assert(r[i] == w[i]);
            assert(w.contains(w[i]));
            assert(init.contains(w[i]));
            let p0 = choose|p: int| 0 <= p < init.len() && init[p] == w[i];
            assert(s[p0] == r[i]);
            assert forall|q: int| 0 <= q < s.len() && #[trigger] s[q] == r[j] implies exists|
                p: int,
            | 0 <= p < q && s[p] == r[i] by {
                if q < n {
                    assert(init[q] == s[q]);
                    if j < w.len() {
                        assert(r[j] == w[j]);
                        assert(seen_before(init, w[i], w[j]));
                        let p1 = choose|p: int| 0 <= p < q && init[p] == w[i];
                        assert(s[p1] == r[i]);
                    } else {
                        // r[j] is the new name x, which init does not hold.
                        assert(init.contains(r[j]));
                        assert(w.contains(r[j]));
                        assert(false);
                    }
                } else {
                    assert(q == n);
                    assert(p0 < q);
                }
            }
        }
    }
}

/// Merging unresolved-name lists never repeats a name.
pub proof fn law_merge_has_no_duplicates(a: Seq<Seq<char>>, b: Seq<Seq<char>>)
    ensures
        merged_names(a, b).no_duplicates(),
{
    lemma_with_new_names_no_duplicates(Seq::empty(), a + b);
}

/// A name is in the merge exactly when it is in either list.
pub proof fn law_merge_is_union(a: Seq<Seq<char>>, b: Seq<Seq<char>>)
    ensures
        forall|x: Seq<char>|
            #[trigger] merged_names(a, b).contains(x) <==> (a.contains(x) || b.contains(x)),
{
    lemma_with_new_names_contains(Seq::empty(), a + b);
    assert forall|x: Seq<char>| #[trigger] (a + b).contains(x) <==> (a.contains(x) || b.contains(
        x,
    )) by {
        if a.contains(x) {
            let k = choose|k: int| 0 <= k < a.len() && a[k] == x;
            assert((a + b)[k] == x);
        }
        if b.contains(x) {
            let k = choose|k: int| 0 <= k < b.len() && b[k] == x;
            assert((a + b)[a.len() + k] == x);
        }
        if (a + b).contains(x) {
            let k = choose|k: int| 0 <= k < (a + b).len() && (a + b)[k] == x;
            if k < a.len() {
                assert(a[k] == x);
            } else {
                assert(b[k - a.len()] == x);
            }
        }
    }
}

/// The merge keeps names in the order of their first occurrence in `a`
/// followed by `b`: of two merged names, the earlier one is seen first.
pub proof fn law_merge_keeps_first_seen_order(a: Seq<Seq<char>>, b: Seq<Seq<char>>)
    ensures
        forall|i: int, j: int|
            0 <= i < j < merged_names(a, b).len() ==> seen_before(
                a + b,
                #[trigger] merged_names(a, b)[i],
                #[trigger] merged_names(a, b)[j],
            ),
{
    lemma_first_occurrences_order(a + b);
}

/// A first list without repeats stays as it is, in front, and only names of
/// the second list are added after it.
pub proof fn law_merge_keeps_first_list(a: Seq<Seq<char>>, b: Seq<Seq<char>>)
    requires
        a.no_duplicates(),
    ensures
        merged_names(a, b).len() >= a.len(),
        merged_names(a, b).take(a.len() as int) == a,
{
    lemma_first_occurrences_of_distinct(a);
    lemma_with_new_names_concat(Seq::empty(), a, b);
    lemma_with_new_names_contains(a, b);
}

/// A batting line is notable exactly when it has 3 or more hits, a home
/// run, 3 or more RBI, or 2 or more stolen bases.
pub proof fn law_notable_batting(l: BatterLine)
    ensures
        batter_notable(l) <==> (l.hits >= 3 || l.home_runs >= 1 || l.rbi >= 3 || l.stolen_bases
            >= 2),
        l.rbi >= 3 ==> batter_notable(l),
        l.hits >= 3 ==> batter_notable(l),
        l.home_runs >= 1 ==> batter_notable(l),
        l.stolen_bases >= 2 ==> batter_notable(l),
{
}

/// The unresolved note is absent exactly when every player resolved.
pub proof fn law_unresolved_note_iff_unresolved(n: nat)
    ensures
        (unresolved_note_text(n) is None) <==> (n == 0),
{
}

} // verus!
