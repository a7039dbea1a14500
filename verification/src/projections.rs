//! Rest-of-season projections from the MLB Stats API: which projection
//! source and cache lifetime a client uses, and which entries of a
//! projections response name a player. The projected figures themselves are
//! floating-point numbers, read by the caller from the entries picked here.
use vstd::prelude::*;

use crate::db::PROJECTIONS_TTL;
use crate::mlb::{http_error_text, reqwest_display};
use crate::json::{
    Json, array_of_opt, get, get2, get_opt, json_get, json_get2, json_get_opt, opt_as_array,
    opt_str, opt_str_or, str_of_opt, str_or,
};
use crate::text::{chars_of, owned, push_char, text_eq};

verus! {

/// Errors that can occur when fetching MLB Stats API projections.
#[derive(Debug)]
pub enum ProjectionError {
    /// HTTP transport error from the HTTP client.
    Http(reqwest::Error),
    /// The API returned data we couldn't parse.
    Parse(String),
}

impl ProjectionError {
    /// The error's message (its `Display` text).
    pub fn to_string(&self) -> (r: String)
        ensures
            match self {
                ProjectionError::Http(e) => r@ == "HTTP error: "@ + reqwest_display(*e),
                ProjectionError::Parse(m) => r@ == "MLB Stats API parse error: "@ + m@,
            },
    {
        match self {
            ProjectionError::Http(e) => {
                let t = http_error_text(e);
                let mut s = owned("HTTP error: ");
                s.append(t.as_str());
                assert(s@ == "HTTP error: "@ + t@);
                s
            },
            ProjectionError::Parse(m) => {
                let mut s = owned("MLB Stats API parse error: ");
                s.append(m.as_str());
                s
            },
        }
    }
}

impl From<reqwest::Error> for ProjectionError {
    fn from(e: reqwest::Error) -> (r: Self) {
        ProjectionError::Http(e)
    }
}

impl vstd::std_specs::convert::FromSpecImpl<reqwest::Error> for ProjectionError {
    open spec fn obeys_from_spec() -> bool {
        true
    }

    open spec fn from_spec(e: reqwest::Error) -> Self {
        ProjectionError::Http(e)
    }
}

// ─── Client settings ───────────────────────────────────────────────────────

/// The projection systems the configuration documents.
pub open spec fn documented_system(s: Seq<char>) -> bool {
    ||| s == "steamer"@
    ||| s == "zips"@
    ||| s == "atc"@
    ||| s == "thebat"@
    ||| s == "thebatx"@
}

/// The sources a client uses as given: the projection stat types of the
/// MLB Stats API, and the documented projection systems.
pub open spec fn valid_source(s: Seq<char>) -> bool {
    ||| s == "projected"@
    ||| s == "projectedRos"@
    ||| s == "projected_Zips"@
    ||| s == "projected_ZipsRos"@
    ||| s == "projected_Zips2YR"@
    ||| s == "projected_Zips3YR"@
    ||| documented_system(s)
}

/// The configured source when it is a known one, used as given in the
/// stats query and the cache key; otherwise (empty or unknown)
/// `projected_ZipsRos`.
pub fn projection_source(source: String) -> (r: String)
    ensures
        r@ == chosen_source(source@),
        (source@ == "projected"@ || source@ == "projectedRos"@ || source@ == "projected_Zips"@
            || source@ == "projected_ZipsRos"@ || source@ == "projected_Zips2YR"@ || source@
            == "projected_Zips3YR"@ || source@ == "steamer"@ || source@ == "zips"@ || source@
            == "atc"@ || source@ == "thebat"@ || source@ == "thebatx"@) ==> r@ == source@,
{
    proof {
        law_known_sources_are_kept(source@);
    }
    let s = source.as_str();
    if text_eq(s, "projected") || text_eq(s, "projectedRos") || text_eq(s, "projected_Zips")
        || text_eq(s, "projected_ZipsRos") || text_eq(s, "projected_Zips2YR") || text_eq(
        s,
        "projected_Zips3YR",
    ) || text_eq(s, "steamer") || text_eq(s, "zips") || text_eq(s, "atc") || text_eq(s, "thebat")
        || text_eq(s, "thebatx") {
        source
    } else {
        owned("projected_ZipsRos")
    }
}

/// The source a client uses for a configured one.
pub open spec fn chosen_source(configured: Seq<char>) -> Seq<char> {
    if valid_source(configured) {
        configured
    } else {
        "projected_ZipsRos"@
    }
}

/// A documented projection system is kept as configured, and whatever the
/// configuration says, the client asks for a known source.
pub proof fn law_documented_source_is_kept(configured: Seq<char>)
    ensures
        documented_system(configured) ==> chosen_source(configured) == configured,
        valid_source(chosen_source(configured)),
{
}

/// Every projection stat type of the MLB Stats API, and every documented
/// projection system, is kept exactly as configured.
pub proof fn law_known_sources_are_kept(configured: Seq<char>)
    ensures
        (configured == "projected"@ || configured == "projectedRos"@ || configured
            == "projected_Zips"@ || configured == "projected_ZipsRos"@ || configured
            == "projected_Zips2YR"@ || configured == "projected_Zips3YR"@ || configured
            == "steamer"@ || configured == "zips"@ || configured == "atc"@ || configured
            == "thebat"@ || configured == "thebatx"@) ==> chosen_source(configured) == configured,
{
}

/// The cache lifetime in seconds: `refresh_hours` hours, or 24 hours when
/// it is 0.
pub fn projection_ttl(refresh_hours: u64) -> (r: i64)
    requires
        refresh_hours * 3600 <= u64::MAX,
    ensures
        r == if refresh_hours > 0 {
            (refresh_hours * 3600) as i64
        } else {
            PROJECTIONS_TTL
        },
{
    if refresh_hours > 0 {
        (refresh_hours * 3600) as i64
    } else {
        PROJECTIONS_TTL
    }
}

// ─── Response parsing ──────────────────────────────────────────────────────

/// The `splits` array of the first entry of the response's `stats` array.
pub open spec fn splits_of(resp: Json) -> Option<Seq<Json>> {
    match array_of_opt(get(resp, "stats"@)) {
        Some(groups) => if groups.len() > 0 {
            array_of_opt(get(groups[0], "splits"@))
        } else {
            None
        },
        None => None,
    }
}

/// An entry of the projections response that names a player: its position
/// in the `splits` array, the player's name and team.
#[derive(Debug)]
pub struct ProjectionRow {
    pub index: usize,
    pub player_name: String,
    pub team: String,
}

/// The entry names a player (`player.fullName` is a string) and has a
/// `stat` object to read the figures from.
pub open spec fn split_kept(split: Json) -> bool {
    &&& str_of_opt(get_opt(get(split, "player"@), "fullName"@)) is Some
    &&& get(split, "stat"@) is Some
}

/// `row` is read from the entry `split` at `index`: the team is its
/// abbreviation, else its name, else empty.
pub open spec fn projection_row_from(row: ProjectionRow, split: Json, index: int) -> bool {
    &&& row.index == index
    &&& str_of_opt(get_opt(get(split, "player"@), "fullName"@)) == Some(row.player_name@)
    &&& row.team@ == match get(split, "team"@) {
        Some(t) => str_or(get2(t, "abbreviation"@, "name"@), Seq::empty()),
        None => Seq::empty(),
    }
}

/// `rows` holds, in order, the rows read from the entries of `src` that
/// name a player.
pub open spec fn projection_rows_from(rows: Seq<ProjectionRow>, src: Seq<Json>) -> bool
    decreases src.len(),
{
    if src.len() == 0 {
        rows.len() == 0
    } else if !split_kept(src.last()) {
        projection_rows_from(rows, src.drop_last())
    } else {
        &&& rows.len() > 0
        &&& projection_row_from(rows.last(), src.last(), src.len() - 1)
        &&& projection_rows_from(rows.drop_last(), src.drop_last())
    }
}

/// The first 300 characters of `s` (all of it when shorter).
pub open spec fn clipped(s: Seq<char>) -> Seq<char> {
    if s.len() <= 300 {
        s
    } else {
        s.take(300)
    }
}

/// The first 300 characters of `s`.
fn clip_300(s: &str) -> (r: String)
    ensures
        r@ == clipped(s@),
{
    let cs = chars_of(s);
    let mut out = String::new();
    let mut i: usize = 0;
    while i < cs.len() && i < 300
        invariant
            i <= cs@.len(),
            i <= 300,
            cs@ == s@,
            out@ == cs@.take(i as int),
        decreases cs@.len() - i,
    {
        push_char(&mut out, cs[i]);
        assert(cs@.take(i + 1) =~= cs@.take(i as int).push(cs@[i as int]));
        i = i + 1;
    }
    assert(s@.len() <= 300 ==> cs@.take(i as int) =~= s@);
    out
}

/// Reads the entries of a projections response that name a player. `shape`
/// is the response as JSON text, quoted (its first 300 characters) in the
/// error when the response has no `stats[0].splits` array.
pub fn parse_projection_rows(resp: &Json, shape: &str) -> (r: Result<Vec<ProjectionRow>, ProjectionError>)
    ensures
        match splits_of(*resp) {
            None => r matches Err(ProjectionError::Parse(m)) && m@
                == "unexpected MLB API response structure: "@ + clipped(shape@),
            Some(splits) => r matches Ok(rows) && projection_rows_from(rows@, splits),
        },
{
    let splits = match opt_as_array(json_get(resp, "stats")) {
        Some(groups) if groups.len() > 0 => opt_as_array(json_get(&groups[0], "splits")),
        _ => None,
    };
    let splits = match splits {
        Some(a) => a,
        None => {
            let mut m = owned("unexpected MLB API response structure: ");
            let clip = clip_300(shape);
            m.append(clip.as_str());
            return Err(ProjectionError::Parse(m));
        },
    };
    proof {
        reveal_strlit("");
    }
    let ghost s = splits@;
    let mut out: Vec<ProjectionRow> = Vec::new();
    let mut i: usize = 0;
    assert(s.take(0) =~= Seq::<Json>::empty());
    while i < splits.len()
        invariant
            i <= s.len(),
            s == splits@,
            projection_rows_from(out@, s.take(i as int)),
            ""@ =~= Seq::<char>::empty(),
        decreases s.len() - i,
    {
        assert(s.take(i + 1).drop_last() =~= s.take(i as int));
        assert(s.take(i + 1).last() == s[i as int]);
        let ghost before = out@;
        let split = &splits[i];
        let name = opt_str(json_get_opt(json_get(split, "player"), "fullName"));
        let stat = json_get(split, "stat");
        match name {
            Some(player_name) => if stat.is_some() {
                let team = match json_get(split, "team") {
                    Some(t) => opt_str_or(json_get2(t, "abbreviation", "name"), ""),
                    None => String::new(),
                };
                out.push(ProjectionRow { index: i, player_name, team });
                assert(out@.drop_last() =~= before);
            },
            None => {},
        }
        i = i + 1;
    }
    assert(s.take(s.len() as int) =~= s);
    Ok(out)
}

} // verus!
