//! The fields of the two responses: the one spelling that each is written
//! with, and the second spelling that some of them are also read under.

use crate::text::same_text;
use vstd::prelude::*;

verus! {

/// A field of a response, at any depth. The response as a whole counts as
/// one, so that a fault of its own can be named.
#[derive(Clone, Copy, Debug, PartialEq, Eq, Structural)]
pub enum Field {
    Response,
    Properties,
    Data,
    ClosestPhase,
    CurrentPhase,
    DayOfWeek,
    PercentIlluminated,
    MoonData,
    SunData,
    Year,
    Month,
    Day,
    Tz,
    Time,
    Hour,
    Minute,
    Phase,
    Phenomenon,
    Count,
    Phases,
}

impl Field {
    /// The canonical spelling of the field.
    pub open spec fn name_text(self) -> Seq<char> {
        match self {
            Field::Response => "response"@,
            Field::Properties => "properties"@,
            Field::Data => "data"@,
            Field::ClosestPhase => "closest_phase"@,
            Field::CurrentPhase => "current_phase"@,
            Field::DayOfWeek => "day_of_week"@,
            Field::PercentIlluminated => "percent_illuminated"@,
            Field::MoonData => "moon_data"@,
            Field::SunData => "sun_data"@,
            Field::Year => "year"@,
            Field::Month => "month"@,
            Field::Day => "day"@,
            Field::Tz => "tz"@,
            Field::Time => "time"@,
            Field::Hour => "hour"@,
            Field::Minute => "minute"@,
            Field::Phase => "phase"@,
            Field::Phenomenon => "phenomenon"@,
            Field::Count => "count"@,
            Field::Phases => "phases"@,
        }
    }

    /// The second spelling under which the field is also read, if it has one.
    pub open spec fn alias_text(self) -> Option<Seq<char>> {
        match self {
            Field::ClosestPhase => Some("closestphase"@),
            Field::CurrentPhase => Some("curphase"@),
            Field::PercentIlluminated => Some("fracillum"@),
            Field::MoonData => Some("moondata"@),
            Field::SunData => Some("sundata"@),
            Field::Phenomenon => Some("phen"@),
            Field::Count => Some("numphases"@),
            Field::Phases => Some("phasedata"@),
            _ => None,
        }
    }

    /// Whether `key` is a spelling of the field: the canonical one or the
    /// second one.
    pub open spec fn accepts_text(self, key: Seq<char>) -> bool {
        key == self.name_text() || self.alias_text() == Some(key)
    }

    /// The canonical spelling of the field, the only one ever written.
    pub fn name(self) -> (name: &'static str)
        ensures
            name@ == self.name_text(),
    {
        match self {
            Field::Response => "response",
            Field::Properties => "properties",
            Field::Data => "data",
            Field::ClosestPhase => "closest_phase",
            Field::CurrentPhase => "current_phase",
            Field::DayOfWeek => "day_of_week",
            Field::PercentIlluminated => "percent_illuminated",
            Field::MoonData => "moon_data",
            Field::SunData => "sun_data",
            Field::Year => "year",
            Field::Month => "month",
            Field::Day => "day",
            Field::Tz => "tz",
            Field::Time => "time",
            Field::Hour => "hour",
            Field::Minute => "minute",
            Field::Phase => "phase",
            Field::Phenomenon => "phenomenon",
            Field::Count => "count",
            Field::Phases => "phases",
        }
    }

    /// The second spelling under which the field is also read, if it has one.
    pub fn alias(self) -> (alias: Option<&'static str>)
        ensures
            match alias {
                Some(text) => self.alias_text() == Some(text@),
                None => self.alias_text() is None,
            },
    {
        match self {
            Field::ClosestPhase => Some("closestphase"),
            Field::CurrentPhase => Some("curphase"),
            Field::PercentIlluminated => Some("fracillum"),
            Field::MoonData => Some("moondata"),
            Field::SunData => Some("sundata"),
            Field::Phenomenon => Some("phen"),
            Field::Count => Some("numphases"),
            Field::Phases => Some("phasedata"),
            _ => None,
        }
    }

    /// The spellings of the fields are all different: a spelling of one
    /// field is accepted by no other.
    pub proof fn lemma_spellings_apart(self, other: Field)
        requires
            self != other,
        ensures
            !other.accepts_text(self.name_text()),
            self.alias_text() matches Some(alias) ==> !other.accepts_text(alias),
    {
        reveal_strlit("response");
        reveal_strlit("properties");
        reveal_strlit("data");
        reveal_strlit("closest_phase");
        reveal_strlit("current_phase");
        reveal_strlit("day_of_week");
        reveal_strlit("percent_illuminated");
        reveal_strlit("moon_data");
        reveal_strlit("sun_data");
        reveal_strlit("year");
        reveal_strlit("month");
        reveal_strlit("day");
        reveal_strlit("tz");
        reveal_strlit("time");
        reveal_strlit("hour");
        reveal_strlit("minute");
        reveal_strlit("phase");
        reveal_strlit("phenomenon");
        reveal_strlit("count");
        reveal_strlit("phases");
        reveal_strlit("closestphase");
        reveal_strlit("curphase");
        reveal_strlit("fracillum");
        reveal_strlit("moondata");
        reveal_strlit("sundata");
        reveal_strlit("phen");
        reveal_strlit("numphases");
        reveal_strlit("phasedata");
        assert("response"@.len() == 8 && "response"@[0] == 'r' && "response"@[2] == 's');
        assert("properties"@.len() == 10 && "properties"@[0] == 'p' && "properties"@[2] == 'o');
        assert("data"@.len() == 4 && "data"@[0] == 'd' && "data"@[2] == 't');
        assert("closest_phase"@.len() == 13
            && "closest_phase"@[0] == 'c'
            && "closest_phase"@[2] == 'o');
        assert("current_phase"@.len() == 13
            && "current_phase"@[0] == 'c'
            && "current_phase"@[2] == 'r');
        assert("day_of_week"@.len() == 11 && "day_of_week"@[0] == 'd' && "day_of_week"@[2] == 'y');
        assert("percent_illuminated"@.len() == 19
            && "percent_illuminated"@[0] == 'p'
            && "percent_illuminated"@[2] == 'r');
        assert("moon_data"@.len() == 9 && "moon_data"@[0] == 'm' && "moon_data"@[2] == 'o');
        assert("sun_data"@.len() == 8 && "sun_data"@[0] == 's' && "sun_data"@[2] == 'n');
        assert("year"@.len() == 4 && "year"@[0] == 'y' && "year"@[2] == 'a');
        assert("month"@.len() == 5 && "month"@[0] == 'm' && "month"@[2] == 'n');
        assert("day"@.len() == 3 && "day"@[0] == 'd' && "day"@[2] == 'y');
        assert("tz"@.len() == 2 && "tz"@[0] == 't');
        assert("time"@.len() == 4 && "time"@[0] == 't' && "time"@[2] == 'm');
        assert("hour"@.len() == 4 && "hour"@[0] == 'h' && "hour"@[2] == 'u');
        assert("minute"@.len() == 6 && "minute"@[0] == 'm' && "minute"@[2] == 'n');
        assert("phase"@.len() == 5 && "phase"@[0] == 'p' && "phase"@[2] == 'a');
        assert("phenomenon"@.len() == 10 && "phenomenon"@[0] == 'p' && "phenomenon"@[2] == 'e');
        assert("count"@.len() == 5 && "count"@[0] == 'c' && "count"@[2] == 'u');
        assert("phases"@.len() == 6 && "phases"@[0] == 'p' && "phases"@[2] == 'a');
        assert("closestphase"@.len() == 12
            && "closestphase"@[0] == 'c'
            && "closestphase"@[2] == 'o');
        assert("curphase"@.len() == 8 && "curphase"@[0] == 'c' && "curphase"@[2] == 'r');
        assert("fracillum"@.len() == 9 && "fracillum"@[0] == 'f' && "fracillum"@[2] == 'a');
        assert("moondata"@.len() == 8 && "moondata"@[0] == 'm' && "moondata"@[2] == 'o');
        assert("sundata"@.len() == 7 && "sundata"@[0] == 's' && "sundata"@[2] == 'n');
        assert("phen"@.len() == 4 && "phen"@[0] == 'p' && "phen"@[2] == 'e');
        assert("numphases"@.len() == 9 && "numphases"@[0] == 'n' && "numphases"@[2] == 'm');
        assert("phasedata"@.len() == 9 && "phasedata"@[0] == 'p' && "phasedata"@[2] == 'a');
    }

    /// The second spelling of a field spells the same fields as its
    /// canonical spelling: that field and no other.
    pub proof fn lemma_alias_same_class(self)
        ensures
            self.alias_text() matches Some(alias) ==> forall|field: Field|
                #[trigger] field.accepts_text(alias) == field.accepts_text(self.name_text()),
    {
        if self.alias_text() is Some {
            let alias = self.alias_text()->0;
            assert forall|field: Field|
                #[trigger] field.accepts_text(alias) == field.accepts_text(
                    self.name_text(),
                ) by {
                if field != self {
                    self.lemma_spellings_apart(field);
                }
            }
        }
    }

    /// Whether `key` is a spelling of the field.
    pub fn accepts(self, key: &str) -> (accepted: bool)
        ensures
            accepted == self.accepts_text(key@),
    {
        if same_text(key, self.name()) {
            return true;
        }
        match self.alias() {
            Some(alias) => same_text(key, alias),
            None => false,
        }
    }
}

} // verus!
