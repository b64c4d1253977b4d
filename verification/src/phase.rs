//! The eight phases of the moon and the five events of a day, each with the
//! tag it is written with and the second spelling it is also read under.

use crate::text::same_text;
use vstd::prelude::*;

verus! {

/// A phase of the moon.
#[derive(Clone, Copy, Debug, PartialEq, Eq, Structural)]
pub enum MoonPhase {
    New,
    WaxingCrescent,
    FirstQuarter,
    WaxingGibbous,
    Full,
    WaningGibbous,
    LastQuarter,
    WaningCrescent,
}

/// What the sun or the moon does at one moment of a day.
#[derive(Clone, Copy, Debug, PartialEq, Eq, Structural)]
pub enum Phenomenon {
    Rise,
    Apex,
    TwilightBegins,
    /// The body goes below the horizon. Written and read as `Set`.
    Setting,
    TwilightEnds,
}

impl MoonPhase {
    /// The canonical tag of the phase.
    pub open spec fn tag_text(self) -> Seq<char> {
        match self {
            MoonPhase::New => "New"@,
            MoonPhase::WaxingCrescent => "WaxingCrescent"@,
            MoonPhase::FirstQuarter => "FirstQuarter"@,
            MoonPhase::WaxingGibbous => "WaxingGibbous"@,
            MoonPhase::Full => "Full"@,
            MoonPhase::WaningGibbous => "WaningGibbous"@,
            MoonPhase::LastQuarter => "LastQuarter"@,
            MoonPhase::WaningCrescent => "WaningCrescent"@,
        }
    }

    /// The second spelling under which the phase is also read.
    pub open spec fn alias_text(self) -> Seq<char> {
        match self {
            MoonPhase::New => "New Moon"@,
            MoonPhase::WaxingCrescent => "Waxing Crescent"@,
            MoonPhase::FirstQuarter => "First Quarter"@,
            MoonPhase::WaxingGibbous => "Waxing Gibbous"@,
            MoonPhase::Full => "Full Moon"@,
            MoonPhase::WaningGibbous => "Waning Gibbous"@,
            MoonPhase::LastQuarter => "Last Quarter"@,
            MoonPhase::WaningCrescent => "Waning Crescent"@,
        }
    }

    /// Whether `text` is a spelling of the phase.
    pub open spec fn accepts_text(self, text: Seq<char>) -> bool {
        text == self.tag_text() || text == self.alias_text()
    }

    /// The phase that `text` spells, if it spells one.
    pub open spec fn spelled_by(text: Seq<char>) -> Option<MoonPhase> {
        if MoonPhase::New.accepts_text(text) {
            Some(MoonPhase::New)
        } else if MoonPhase::WaxingCrescent.accepts_text(text) {
            Some(MoonPhase::WaxingCrescent)
        } else if MoonPhase::FirstQuarter.accepts_text(text) {
            Some(MoonPhase::FirstQuarter)
        } else if MoonPhase::WaxingGibbous.accepts_text(text) {
            Some(MoonPhase::WaxingGibbous)
        } else if MoonPhase::Full.accepts_text(text) {
            Some(MoonPhase::Full)
        } else if MoonPhase::WaningGibbous.accepts_text(text) {
            Some(MoonPhase::WaningGibbous)
        } else if MoonPhase::LastQuarter.accepts_text(text) {
            Some(MoonPhase::LastQuarter)
        } else if MoonPhase::WaningCrescent.accepts_text(text) {
            Some(MoonPhase::WaningCrescent)
        } else {
            None
        }
    }

    /// The canonical tag of the phase, the only spelling ever written.
    pub fn tag(self) -> (tag: &'static str)
        ensures
            tag@ == self.tag_text(),
    {
        match self {
            MoonPhase::New => "New",
            MoonPhase::WaxingCrescent => "WaxingCrescent",
            MoonPhase::FirstQuarter => "FirstQuarter",
            MoonPhase::WaxingGibbous => "WaxingGibbous",
            MoonPhase::Full => "Full",
            MoonPhase::WaningGibbous => "WaningGibbous",
            MoonPhase::LastQuarter => "LastQuarter",
            MoonPhase::WaningCrescent => "WaningCrescent",
        }
    }

    /// The second spelling under which the phase is also read.
    pub fn alias(self) -> (alias: &'static str)
        ensures
            alias@ == self.alias_text(),
    {
        match self {
            MoonPhase::New => "New Moon",
            MoonPhase::WaxingCrescent => "Waxing Crescent",
            MoonPhase::FirstQuarter => "First Quarter",
            MoonPhase::WaxingGibbous => "Waxing Gibbous",
            MoonPhase::Full => "Full Moon",
            MoonPhase::WaningGibbous => "Waning Gibbous",
            MoonPhase::LastQuarter => "Last Quarter",
            MoonPhase::WaningCrescent => "Waning Crescent",
        }
    }

    /// Whether `text` is a spelling of the phase.
    pub fn accepts(self, text: &str) -> (accepted: bool)
        ensures
            accepted == self.accepts_text(text@),
    {
        same_text(text, self.tag()) || same_text(text, self.alias())
    }

    /// Reads a phase from either of its spellings.
    pub fn from_text(text: &str) -> (phase: Option<MoonPhase>)
        ensures
            phase == MoonPhase::spelled_by(text@),
    {
        if MoonPhase::New.accepts(text) {
            Some(MoonPhase::New)
        } else if MoonPhase::WaxingCrescent.accepts(text) {
            Some(MoonPhase::WaxingCrescent)
        } else if MoonPhase::FirstQuarter.accepts(text) {
            Some(MoonPhase::FirstQuarter)
        } else if MoonPhase::WaxingGibbous.accepts(text) {
            Some(MoonPhase::WaxingGibbous)
        } else if MoonPhase::Full.accepts(text) {
            Some(MoonPhase::Full)
        } else if MoonPhase::WaningGibbous.accepts(text) {
            Some(MoonPhase::WaningGibbous)
        } else if MoonPhase::LastQuarter.accepts(text) {
            Some(MoonPhase::LastQuarter)
        } else if MoonPhase::WaningCrescent.accepts(text) {
            Some(MoonPhase::WaningCrescent)
        } else {
            None
        }
    }

    /// Reading either spelling of a phase gives that phase, so what is
    /// written reads back as itself.
    pub proof fn lemma_spellings_read_back(self)
        ensures
            MoonPhase::spelled_by(self.tag_text()) == Some(self),
            MoonPhase::spelled_by(self.alias_text()) == Some(self),
    {
        reveal_strlit("New");
        reveal_strlit("WaxingCrescent");
        reveal_strlit("FirstQuarter");
        reveal_strlit("WaxingGibbous");
        reveal_strlit("Full");
        reveal_strlit("WaningGibbous");
        reveal_strlit("LastQuarter");
        reveal_strlit("WaningCrescent");
        reveal_strlit("New Moon");
        reveal_strlit("Waxing Crescent");
        reveal_strlit("First Quarter");
        reveal_strlit("Waxing Gibbous");
        reveal_strlit("Full Moon");
        reveal_strlit("Waning Gibbous");
        reveal_strlit("Last Quarter");
        reveal_strlit("Waning Crescent");
        assert("New"@.len() == 3 && "New"@[0] == 'N' && "New"@[2] == 'w');
        assert("WaxingCrescent"@.len() == 14
            && "WaxingCrescent"@[0] == 'W'
            && "WaxingCrescent"@[2] == 'x'
            && "WaxingCrescent"@[6] == 'C');
        assert("FirstQuarter"@.len() == 12
            && "FirstQuarter"@[0] == 'F'
            && "FirstQuarter"@[2] == 'r'
            && "FirstQuarter"@[6] == 'u');
        assert("WaxingGibbous"@.len() == 13
            && "WaxingGibbous"@[0] == 'W'
            && "WaxingGibbous"@[2] == 'x'
            && "WaxingGibbous"@[6] == 'G');
        assert("Full"@.len() == 4 && "Full"@[0] == 'F' && "Full"@[2] == 'l');
        assert("WaningGibbous"@.len() == 13
            && "WaningGibbous"@[0] == 'W'
            && "WaningGibbous"@[2] == 'n'
            && "WaningGibbous"@[6] == 'G');
        assert("LastQuarter"@.len() == 11
            && "LastQuarter"@[0] == 'L'
            && "LastQuarter"@[2] == 's'
            && "LastQuarter"@[6] == 'a');
        assert("WaningCrescent"@.len() == 14
            && "WaningCrescent"@[0] == 'W'
            && "WaningCrescent"@[2] == 'n'
            && "WaningCrescent"@[6] == 'C');
        assert("New Moon"@.len() == 8
            && "New Moon"@[0] == 'N'
            && "New Moon"@[2] == 'w'
            && "New Moon"@[6] == 'o');
        assert("Waxing Crescent"@.len() == 15
            && "Waxing Crescent"@[0] == 'W'
            && "Waxing Crescent"@[2] == 'x'
            && "Waxing Crescent"@[6] == ' ');
        assert("First Quarter"@.len() == 13
            && "First Quarter"@[0] == 'F'
            && "First Quarter"@[2] == 'r'
            && "First Quarter"@[6] == 'Q');
        assert("Waxing Gibbous"@.len() == 14
            && "Waxing Gibbous"@[0] == 'W'
            && "Waxing Gibbous"@[2] == 'x'
            && "Waxing Gibbous"@[6] == ' ');
        assert("Full Moon"@.len() == 9
            && "Full Moon"@[0] == 'F'
            && "Full Moon"@[2] == 'l'
            && "Full Moon"@[6] == 'o');
        assert("Waning Gibbous"@.len() == 14
            && "Waning Gibbous"@[0] == 'W'
            && "Waning Gibbous"@[2] == 'n'
            && "Waning Gibbous"@[6] == ' ');
        assert("Last Quarter"@.len() == 12
            && "Last Quarter"@[0] == 'L'
            && "Last Quarter"@[2] == 's'
            && "Last Quarter"@[6] == 'u');
        assert("Waning Crescent"@.len() == 15
            && "Waning Crescent"@[0] == 'W'
            && "Waning Crescent"@[2] == 'n'
            && "Waning Crescent"@[6] == ' ');
    }
}

impl Phenomenon {
    /// The canonical tag of the event.
    pub open spec fn tag_text(self) -> Seq<char> {
        match self {
            Phenomenon::Rise => "Rise"@,
            Phenomenon::Apex => "Apex"@,
            Phenomenon::TwilightBegins => "TwilightBegins"@,
            Phenomenon::Setting => "Set"@,
            Phenomenon::TwilightEnds => "TwilightEnds"@,
        }
    }

    /// The second spelling under which the event is also read, if it has one.
    pub open spec fn alias_text(self) -> Option<Seq<char>> {
        match self {
            Phenomenon::Apex => Some("Upper Transit"@),
            Phenomenon::TwilightBegins => Some("Begin Civil Twilight"@),
            Phenomenon::TwilightEnds => Some("End Civil Twilight"@),
            _ => None,
        }
    }

    /// Whether `text` is a spelling of the event.
    pub open spec fn accepts_text(self, text: Seq<char>) -> bool {
        text == self.tag_text() || self.alias_text() == Some(text)
    }

    /// The event that `text` spells, if it spells one.
    pub open spec fn spelled_by(text: Seq<char>) -> Option<Phenomenon> {
        if Phenomenon::Rise.accepts_text(text) {
            Some(Phenomenon::Rise)
        } else if Phenomenon::Apex.accepts_text(text) {
            Some(Phenomenon::Apex)
        } else if Phenomenon::TwilightBegins.accepts_text(text) {
            Some(Phenomenon::TwilightBegins)
        } else if Phenomenon::Setting.accepts_text(text) {
            Some(Phenomenon::Setting)
        } else if Phenomenon::TwilightEnds.accepts_text(text) {
            Some(Phenomenon::TwilightEnds)
        } else {
            None
        }
    }

    /// The canonical tag of the event, the only spelling ever written.
    pub fn tag(self) -> (tag: &'static str)
        ensures
            tag@ == self.tag_text(),
    {
        match self {
            Phenomenon::Rise => "Rise",
            Phenomenon::Apex => "Apex",
            Phenomenon::TwilightBegins => "TwilightBegins",
            Phenomenon::Setting => "Set",
            Phenomenon::TwilightEnds => "TwilightEnds",
        }
    }

    /// The second spelling under which the event is also read, if it has one.
    pub fn alias(self) -> (alias: Option<&'static str>)
        ensures
            match alias {
                Some(text) => self.alias_text() == Some(text@),
                None => self.alias_text() is None,
            },
    {
        match self {
            Phenomenon::Apex => Some("Upper Transit"),
            Phenomenon::TwilightBegins => Some("Begin Civil Twilight"),
            Phenomenon::TwilightEnds => Some("End Civil Twilight"),
            _ => None,
        }
    }

    /// Whether `text` is a spelling of the event.
    pub fn accepts(self, text: &str) -> (accepted: bool)
        ensures
            accepted == self.accepts_text(text@),
    {
        if same_text(text, self.tag()) {
            return true;
        }
        match self.alias() {
            Some(alias) => same_text(text, alias),
            None => false,
        }
    }

    /// Reads an event from either of its spellings.
    pub fn from_text(text: &str) -> (event: Option<Phenomenon>)
        ensures
            event == Phenomenon::spelled_by(text@),
    {
        if Phenomenon::Rise.accepts(text) {
            Some(Phenomenon::Rise)
        } else if Phenomenon::Apex.accepts(text) {
            Some(Phenomenon::Apex)
        } else if Phenomenon::TwilightBegins.accepts(text) {
            Some(Phenomenon::TwilightBegins)
        } else if Phenomenon::Setting.accepts(text) {
            Some(Phenomenon::Setting)
        } else if Phenomenon::TwilightEnds.accepts(text) {
            Some(Phenomenon::TwilightEnds)
        } else {
            None
        }
    }

    /// Reading either spelling of an event gives that event, so what is
    /// written reads back as itself.
    pub proof fn lemma_spellings_read_back(self)
        ensures
            Phenomenon::spelled_by(self.tag_text()) == Some(self),
            self.alias_text() matches Some(alias) ==> Phenomenon::spelled_by(alias) == Some(self),
    {
        reveal_strlit("Rise");
        reveal_strlit("Apex");
        reveal_strlit("TwilightBegins");
        reveal_strlit("Set");
        reveal_strlit("TwilightEnds");
        reveal_strlit("Upper Transit");
        reveal_strlit("Begin Civil Twilight");
        reveal_strlit("End Civil Twilight");
        assert("Rise"@.len() == 4 && "Rise"@[0] == 'R');
        assert("Apex"@.len() == 4 && "Apex"@[0] == 'A');
        assert("TwilightBegins"@.len() == 14 && "TwilightBegins"@[0] == 'T');
        assert("Set"@.len() == 3 && "Set"@[0] == 'S');
        assert("TwilightEnds"@.len() == 12 && "TwilightEnds"@[0] == 'T');
        assert("Upper Transit"@.len() == 13 && "Upper Transit"@[0] == 'U');
        assert("Begin Civil Twilight"@.len() == 20 && "Begin Civil Twilight"@[0] == 'B');
        assert("End Civil Twilight"@.len() == 18 && "End Civil Twilight"@[0] == 'E');
    }
}

} // verus!
