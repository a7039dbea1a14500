//! Newtype wrappers for domain identifiers.
//!
//! These keep semantically different string IDs (league, team, player) from
//! being mixed up. Each wraps a `String`, and its view is the characters of
//! that string.
use vstd::prelude::*;

verus! {

/// A Fantrax league identifier.
#[derive(Debug, Hash)]
pub struct LeagueId(pub String);

/// A Fantrax team identifier.
#[derive(Debug, Hash)]
pub struct TeamId(pub String);

/// A Fantrax player identifier.
///
/// This is the Fantrax-side ID, which may or may not be numeric; it lives in
/// a different ID space from MLB person IDs.
#[derive(Debug, Hash)]
pub struct PlayerId(pub String);

impl View for LeagueId {
    type V = Seq<char>;

    open spec fn view(&self) -> Seq<char> {
        self.0@
    }
}

impl LeagueId {
    /// An ID holding a copy of `s`.
    pub fn new(s: &str) -> (r: Self)
        ensures
            r@ == s@,
    {
        LeagueId(s.to_owned())
    }

    /// The ID as a string slice.
    pub fn as_str(&self) -> (r: &str)
        ensures
            r@ == self@,
    {
        self.0.as_str()
    }

    /// The ID as a string slice (what `AsRef<str>` gives).
    pub fn as_ref(&self) -> (r: &str)
        ensures
            r@ == self@,
    {
        self.0.as_str()
    }

    /// The ID's display form: its text.
    pub fn to_string(&self) -> (r: String)
        ensures
            r@ == self@,
    {
        self.0.clone()
    }
}

impl Clone for LeagueId {
    fn clone(&self) -> (r: Self)
        ensures
            r == *self,
    {
        LeagueId(self.0.clone())
    }
}

impl PartialEq for LeagueId {
    fn eq(&self, other: &Self) -> (r: bool) {
        self.0 == other.0
    }
}

impl Eq for LeagueId {}

impl vstd::std_specs::cmp::PartialEqSpecImpl for LeagueId {
    open spec fn obeys_eq_spec() -> bool {
        true
    }

    open spec fn eq_spec(&self, other: &Self) -> bool {
        self@ == other@
    }
}

impl From<String> for LeagueId {
    fn from(s: String) -> (r: Self) {
        LeagueId(s)
    }
}

impl vstd::std_specs::convert::FromSpecImpl<String> for LeagueId {
    open spec fn obeys_from_spec() -> bool {
        true
    }

    open spec fn from_spec(s: String) -> Self {
        LeagueId(s)
    }
}

impl<'a> From<&'a str> for LeagueId {
    fn from(s: &'a str) -> (r: Self)
        ensures
            r@ == s@,
    {
        LeagueId(s.to_owned())
    }
}

/// A `String` value is not determined by its characters alone, so the
/// generic spec of this conversion is left open; the impl's own `ensures`
/// states that the ID's text is `s`.
impl<'a> vstd::std_specs::convert::FromSpecImpl<&'a str> for LeagueId {
    open spec fn obeys_from_spec() -> bool {
        false
    }

    open spec fn from_spec(s: &'a str) -> Self {
        LeagueId(choose|t: String| t@ == s@)
    }
}

impl View for TeamId {
    type V = Seq<char>;

    open spec fn view(&self) -> Seq<char> {
        self.0@
    }
}

impl TeamId {
    /// An ID holding a copy of `s`.
    pub fn new(s: &str) -> (r: Self)
        ensures
            r@ == s@,
    {
        TeamId(s.to_owned())
    }

    /// The ID as a string slice.
    pub fn as_str(&self) -> (r: &str)
        ensures
            r@ == self@,
    {
        self.0.as_str()
    }

    /// The ID as a string slice (what `AsRef<str>` gives).
    pub fn as_ref(&self) -> (r: &str)
        ensures
            r@ == self@,
    {
        self.0.as_str()
    }

    /// The ID's display form: its text.
    pub fn to_string(&self) -> (r: String)
        ensures
            r@ == self@,
    {
        self.0.clone()
    }
}

impl Clone for TeamId {
    fn clone(&self) -> (r: Self)
        ensures
            r == *self,
    {
        TeamId(self.0.clone())
    }
}

impl PartialEq for TeamId {
    fn eq(&self, other: &Self) -> (r: bool) {
        self.0 == other.0
    }
}

impl Eq for TeamId {}

impl vstd::std_specs::cmp::PartialEqSpecImpl for TeamId {
    open spec fn obeys_eq_spec() -> bool {
        true
    }

    open spec fn eq_spec(&self, other: &Self) -> bool {
        self@ == other@
    }
}

impl From<String> for TeamId {
    fn from(s: String) -> (r: Self) {
        TeamId(s)
    }
}

impl vstd::std_specs::convert::FromSpecImpl<String> for TeamId {
    open spec fn obeys_from_spec() -> bool {
        true
    }

    open spec fn from_spec(s: String) -> Self {
        TeamId(s)
    }
}

impl<'a> From<&'a str> for TeamId {
    fn from(s: &'a str) -> (r: Self)
        ensures
            r@ == s@,
    {
        TeamId(s.to_owned())
    }
}

/// A `String` value is not determined by its characters alone, so the
/// generic spec of this conversion is left open; the impl's own `ensures`
/// states that the ID's text is `s`.
impl<'a> vstd::std_specs::convert::FromSpecImpl<&'a str> for TeamId {
    open spec fn obeys_from_spec() -> bool {
        false
    }

    open spec fn from_spec(s: &'a str) -> Self {
        TeamId(choose|t: String| t@ == s@)
    }
}

impl View for PlayerId {
    type V = Seq<char>;

    open spec fn view(&self) -> Seq<char> {
        self.0@
    }
}

impl PlayerId {
    /// An ID holding a copy of `s`.
    pub fn new(s: &str) -> (r: Self)
        ensures
            r@ == s@,
    {
        PlayerId(s.to_owned())
    }

    /// The ID as a string slice.
    pub fn as_str(&self) -> (r: &str)
        ensures
            r@ == self@,
    {
        self.0.as_str()
    }

    /// The ID as a string slice (what `AsRef<str>` gives).
    pub fn as_ref(&self) -> (r: &str)
        ensures
            r@ == self@,
    {
        self.0.as_str()
    }

    /// The ID's display form: its text.
    pub fn to_string(&self) -> (r: String)
        ensures
            r@ == self@,
    {
        self.0.clone()
    }
}

impl Clone for PlayerId {
    fn clone(&self) -> (r: Self)
        ensures
            r == *self,
    {
        PlayerId(self.0.clone())
    }
}

impl PartialEq for PlayerId {
    fn eq(&self, other: &Self) -> (r: bool) {
        self.0 == other.0
    }
}

impl Eq for PlayerId {}

impl vstd::std_specs::cmp::PartialEqSpecImpl for PlayerId {
    open spec fn obeys_eq_spec() -> bool {
        true
    }

    open spec fn eq_spec(&self, other: &Self) -> bool {
        self@ == other@
    }
}

impl From<String> for PlayerId {
    fn from(s: String) -> (r: Self) {
        PlayerId(s)
    }
}

impl vstd::std_specs::convert::FromSpecImpl<String> for PlayerId {
    open spec fn obeys_from_spec() -> bool {
        true
    }

    open spec fn from_spec(s: String) -> Self {
        PlayerId(s)
    }
}

impl<'a> From<&'a str> for PlayerId {
    fn from(s: &'a str) -> (r: Self)
        ensures
            r@ == s@,
    {
        PlayerId(s.to_owned())
    }
}

/// A `String` value is not determined by its characters alone, so the
/// generic spec of this conversion is left open; the impl's own `ensures`
/// states that the ID's text is `s`.
impl<'a> vstd::std_specs::convert::FromSpecImpl<&'a str> for PlayerId {
    open spec fn obeys_from_spec() -> bool {
        false
    }

    open spec fn from_spec(s: &'a str) -> Self {
        PlayerId(choose|t: String| t@ == s@)
    }
}

} // verus!
