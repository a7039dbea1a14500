//! Configuration values: leagues, projections and server settings.
use vstd::prelude::*;

use crate::text::{chars_of, owned, push_char, starts_with};

verus! {

/// One configured Fantrax league.
#[derive(Debug)]
pub struct LeagueConfig {
    pub id: String,
    pub name: String,
    pub league_type: LeagueType,
    pub lineup: LineupType,
    pub keeper: bool,
}

/// The league's scoring format.
#[derive(Debug, Clone, Copy, PartialEq, Eq, Structural)]
pub enum LeagueType {
    H2h,
    Roto,
    Hybrid,
    Custom,
}

/// How lineups are set in the league.
#[derive(Debug, Clone, Copy, PartialEq, Eq, Structural)]
pub enum LineupType {
    Daily,
    Weekly,
    Bestball,
    Worstball,
}

/// Where projections come from and how long they are cached.
#[derive(Debug)]
pub struct ProjectionsConfig {
    pub source: String,
    pub refresh_hours: u64,
}

/// Server settings.
#[derive(Debug)]
pub struct ServerConfig {
    pub port: u16,
    pub db_path: String,
}

pub open spec fn league_type_name(t: LeagueType) -> Seq<char> {
    match t {
        LeagueType::H2h => "h2h"@,
        LeagueType::Roto => "roto"@,
        LeagueType::Hybrid => "hybrid"@,
        LeagueType::Custom => "custom"@,
    }
}

pub open spec fn lineup_type_name(t: LineupType) -> Seq<char> {
    match t {
        LineupType::Daily => "daily"@,
        LineupType::Weekly => "weekly"@,
        LineupType::Bestball => "bestball"@,
        LineupType::Worstball => "worstball"@,
    }
}

impl LeagueType {
    /// The snake_case name used in config files and in display.
    pub fn as_str(&self) -> (r: &'static str)
        ensures
            r@ == league_type_name(*self),
    {
        match self {
            LeagueType::H2h => "h2h",
            LeagueType::Roto => "roto",
            LeagueType::Hybrid => "hybrid",
            LeagueType::Custom => "custom",
        }
    }

    /// The display form (same text as `as_str`).
    pub fn to_string(&self) -> (r: String)
        ensures
            r@ == league_type_name(*self),
    {
        owned(self.as_str())
    }
}

impl LineupType {
    /// The snake_case name used in config files and in display.
    pub fn as_str(&self) -> (r: &'static str)
        ensures
            r@ == lineup_type_name(*self),
    {
        match self {
            LineupType::Daily => "daily",
            LineupType::Weekly => "weekly",
            LineupType::Bestball => "bestball",
            LineupType::Worstball => "worstball",
        }
    }

    /// The display form (same text as `as_str`).
    pub fn to_string(&self) -> (r: String)
        ensures
            r@ == lineup_type_name(*self),
    {
        owned(self.as_str())
    }
}

impl Clone for LeagueConfig {
    fn clone(&self) -> (r: Self)
        ensures
            r == *self,
    {
        LeagueConfig {
            id: self.id.clone(),
            name: self.name.clone(),
            league_type: self.league_type,
            lineup: self.lineup,
            keeper: self.keeper,
        }
    }
}

/// Unix path joining as `Path::join` does it: an absolute `rest` replaces
/// `base`; otherwise a `/` is put between them unless `base` is empty or
/// already ends with one.
pub open spec fn path_join(base: Seq<char>, rest: Seq<char>) -> Seq<char> {
    if rest.len() > 0 && rest[0] == '/' {
        rest
    } else if base.len() == 0 || base.last() == '/' {
        base + rest
    } else {
        base + seq!['/'] + rest
    }
}

/// The database path after `~` expansion: a path starting with "~/" is
/// taken relative to the home directory, when one is known.
pub open spec fn expanded_db_path(db_path: Seq<char>, home: Option<Seq<char>>) -> Seq<char> {
    if db_path.len() >= 2 && db_path[0] == '~' && db_path[1] == '/' && home is Some {
        path_join(home->0, db_path.skip(2))
    } else {
        db_path
    }
}

impl ServerConfig {
    /// Resolve the db_path, expanding a leading `~/` to the user's home
    /// directory `home` (the `HOME` environment variable, read by the caller).
    pub fn resolved_db_path(&self, home: Option<&str>) -> (r: String)
        ensures
            r@ == expanded_db_path(self.db_path@, match home {
                Some(h) => Some(h@),
                None => None,
            }),
    {
        let tilde = starts_with(self.db_path.as_str(), "~/");
        proof {
            reveal_strlit("~/");
            if self.db_path@.len() >= 2 && self.db_path@[0] == '~' && self.db_path@[1] == '/' {
                assert(self.db_path@.subrange(0, 2) =~= "~/"@);
            }
        }
        match home {
            Some(h) => {
                if tilde {
                    let path = chars_of(self.db_path.as_str());
                    let base = chars_of(h);
                    let mut out = owned(h);
                    let absolute = path.len() > 2 && path[2] == '/';
                    if absolute {
                        out = String::new();
                    } else if base.len() > 0 && base[base.len() - 1] != '/' {
                        push_char(&mut out, '/');
                    }
                    let mut i: usize = 2;
                    let ghost start = out@;
                    while i < path.len()
                        invariant
                            2 <= i <= path@.len(),
                            out@ == start + path@.subrange(2, i as int),
                        decreases path@.len() - i,
                    {
                        push_char(&mut out, path[i]);
                        i = i + 1;
                        assert(out@ =~= start + path@.subrange(2, i as int));
                    }
                    proof {
                        assert(self.db_path@.subrange(0, 2)[0] == self.db_path@[0]);
                        assert(self.db_path@.subrange(0, 2)[1] == self.db_path@[1]);
                        assert(self.db_path@[0] == '~' && self.db_path@[1] == '/');
                        assert(path@.subrange(2, path@.len() as int) =~= path@.skip(2));
                        if absolute {
                            assert(path@.skip(2)[0] == path@[2]);
                        } else if path@.len() > 2 {
                            assert(path@.skip(2)[0] == path@[2]);
                        }
                        if base@.len() > 0 && !absolute {
                            assert(base@.last() == base@[base@.len() - 1]);
                        }
                        assert(out@ =~= expanded_db_path(
                            self.db_path@,
                            Some(h@),
                        ));
                    }
                    return out;
                }
                self.db_path.clone()
            },
            None => self.db_path.clone(),
        }
    }
}

/// Only a leading `~/` is expanded: any other database path, and any path
/// when the home directory is unknown, is used as it is.
pub proof fn law_only_tilde_paths_expand(db_path: Seq<char>, home: Option<Seq<char>>)
    ensures
        !(db_path.len() >= 2 && db_path[0] == '~' && db_path[1] == '/') || home is None
            ==> expanded_db_path(db_path, home) == db_path,
{
}

} // verus!
