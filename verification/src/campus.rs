//! Campus and cohort codes as the intranet writes them.

use vstd::prelude::*;
use crate::text::same_text;

verus! {

/// A campus.
#[derive(Debug, Clone, Copy, PartialEq, Eq, PartialOrd, Ord, Hash)]
pub enum Location {
    Barcelone,
    Berlin,
    Bordeaux,
    LaReunion,
    Lille,
    Lyon,
    Marseille,
    Montpellier,
    Nancy,
    Nantes,
    Nice,
    Paris,
    Rennes,
    Strasbourg,
    Toulouse,
    Cotonou,
    Tirana,
    Bruxelles,
}

impl Location {
    /// The code that stands for this campus in a URL and in a response.
    pub open spec fn spec_code(self) -> Seq<char> {
        match self {
            Location::Barcelone => "ES/BAR"@,
            Location::Berlin => "DE/BER"@,
            Location::Bordeaux => "FR/BDX"@,
            Location::LaReunion => "FR/RUN"@,
            Location::Lille => "FR/LIL"@,
            Location::Lyon => "FR/LYN"@,
            Location::Marseille => "FR/MAR"@,
            Location::Montpellier => "FR/MPL"@,
            Location::Nancy => "FR/NCY"@,
            Location::Nantes => "FR/NAN"@,
            Location::Nice => "FR/NCE"@,
            Location::Paris => "FR/PAR"@,
            Location::Rennes => "FR/REN"@,
            Location::Strasbourg => "FR/STG"@,
            Location::Toulouse => "FR/TLS"@,
            Location::Cotonou => "BJ/COT"@,
            Location::Tirana => "AL/TIR"@,
            Location::Bruxelles => "BE/BRU"@,
        }
    }

    /// The campus that `text` is the code of, if it is one.
    pub open spec fn decode(text: Seq<char>) -> Option<Location> {
        if text == "ES/BAR"@ {
            Some(Location::Barcelone)
        } else if text == "DE/BER"@ {
            Some(Location::Berlin)
        } else if text == "FR/BDX"@ {
            Some(Location::Bordeaux)
        } else if text == "FR/RUN"@ {
            Some(Location::LaReunion)
        } else if text == "FR/LIL"@ {
            Some(Location::Lille)
        } else if text == "FR/LYN"@ {
            Some(Location::Lyon)
        } else if text == "FR/MAR"@ {
            Some(Location::Marseille)
        } else if text == "FR/MPL"@ {
            Some(Location::Montpellier)
        } else if text == "FR/NCY"@ {
            Some(Location::Nancy)
        } else if text == "FR/NAN"@ {
            Some(Location::Nantes)
        } else if text == "FR/NCE"@ {
            Some(Location::Nice)
        } else if text == "FR/PAR"@ {
            Some(Location::Paris)
        } else if text == "FR/REN"@ {
            Some(Location::Rennes)
        } else if text == "FR/STG"@ {
            Some(Location::Strasbourg)
        } else if text == "FR/TLS"@ {
            Some(Location::Toulouse)
        } else if text == "BJ/COT"@ {
            Some(Location::Cotonou)
        } else if text == "AL/TIR"@ {
            Some(Location::Tirana)
        } else if text == "BE/BRU"@ {
            Some(Location::Bruxelles)
        } else {
            None
        }
    }

    /// The code of this campus.
    pub fn code(&self) -> (text: &'static str)
        ensures
            text@ == self.spec_code(),
    {
        match self {
            Location::Barcelone => "ES/BAR",
            Location::Berlin => "DE/BER",
            Location::Bordeaux => "FR/BDX",
            Location::LaReunion => "FR/RUN",
            Location::Lille => "FR/LIL",
            Location::Lyon => "FR/LYN",
            Location::Marseille => "FR/MAR",
            Location::Montpellier => "FR/MPL",
            Location::Nancy => "FR/NCY",
            Location::Nantes => "FR/NAN",
            Location::Nice => "FR/NCE",
            Location::Paris => "FR/PAR",
            Location::Rennes => "FR/REN",
            Location::Strasbourg => "FR/STG",
            Location::Toulouse => "FR/TLS",
            Location::Cotonou => "BJ/COT",
            Location::Tirana => "AL/TIR",
            Location::Bruxelles => "BE/BRU",
        }
    }

    /// Reads a campus code; `None` for any other text.
    pub fn from_code(text: &str) -> (location: Option<Location>)
        ensures
            location == Location::decode(text@),
    {
        if same_text(text, "ES/BAR") {
            Some(Location::Barcelone)
        } else if same_text(text, "DE/BER") {
            Some(Location::Berlin)
        } else if same_text(text, "FR/BDX") {
            Some(Location::Bordeaux)
        } else if same_text(text, "FR/RUN") {
            Some(Location::LaReunion)
        } else if same_text(text, "FR/LIL") {
            Some(Location::Lille)
        } else if same_text(text, "FR/LYN") {
            Some(Location::Lyon)
        } else if same_text(text, "FR/MAR") {
            Some(Location::Marseille)
        } else if same_text(text, "FR/MPL") {
            Some(Location::Montpellier)
        } else if same_text(text, "FR/NCY") {
            Some(Location::Nancy)
        } else if same_text(text, "FR/NAN") {
            Some(Location::Nantes)
        } else if same_text(text, "FR/NCE") {
            Some(Location::Nice)
        } else if same_text(text, "FR/PAR") {
            Some(Location::Paris)
        } else if same_text(text, "FR/REN") {
            Some(Location::Rennes)
        } else if same_text(text, "FR/STG") {
            Some(Location::Strasbourg)
        } else if same_text(text, "FR/TLS") {
            Some(Location::Toulouse)
        } else if same_text(text, "BJ/COT") {
            Some(Location::Cotonou)
        } else if same_text(text, "AL/TIR") {
            Some(Location::Tirana)
        } else if same_text(text, "BE/BRU") {
            Some(Location::Bruxelles)
        } else {
            None
        }
    }

    /// Reading the code of a campus gives that campus back.
    pub proof fn lemma_code_round_trip(self)
        ensures
            Location::decode(self.spec_code()) == Some(self),
    {
        reveal_strlit("ES/BAR");
        reveal_strlit("DE/BER");
        reveal_strlit("FR/BDX");
        reveal_strlit("FR/RUN");
        reveal_strlit("FR/LIL");
        reveal_strlit("FR/LYN");
        reveal_strlit("FR/MAR");
        reveal_strlit("FR/MPL");
        reveal_strlit("FR/NCY");
        reveal_strlit("FR/NAN");
        reveal_strlit("FR/NCE");
        reveal_strlit("FR/PAR");
        reveal_strlit("FR/REN");
        reveal_strlit("FR/STG");
        reveal_strlit("FR/TLS");
        reveal_strlit("BJ/COT");
        reveal_strlit("AL/TIR");
        reveal_strlit("BE/BRU");
        let t = self.spec_code();
        assert(t.len() == 6);
        match self {
            Location::Barcelone => {
                assert(t[0] == 'E' && t[1] == 'S' && t[3] == 'B' && t[4] == 'A' && t[5] == 'R');
            },
            Location::Berlin => {
                assert(t[0] == 'D' && t[1] == 'E' && t[3] == 'B' && t[4] == 'E' && t[5] == 'R');
            },
            Location::Bordeaux => {
                assert(t[0] == 'F' && t[1] == 'R' && t[3] == 'B' && t[4] == 'D' && t[5] == 'X');
            },
            Location::LaReunion => {
                assert(t[0] == 'F' && t[1] == 'R' && t[3] == 'R' && t[4] == 'U' && t[5] == 'N');
            },
            Location::Lille => {
                assert(t[0] == 'F' && t[1] == 'R' && t[3] == 'L' && t[4] == 'I' && t[5] == 'L');
            },
            Location::Lyon => {
                assert(t[0] == 'F' && t[1] == 'R' && t[3] == 'L' && t[4] == 'Y' && t[5] == 'N');
            },
            Location::Marseille => {
                assert(t[0] == 'F' && t[1] == 'R' && t[3] == 'M' && t[4] == 'A' && t[5] == 'R');
            },
            Location::Montpellier => {
                assert(t[0] == 'F' && t[1] == 'R' && t[3] == 'M' && t[4] == 'P' && t[5] == 'L');
            },
            Location::Nancy => {
                assert(t[0] == 'F' && t[1] == 'R' && t[3] == 'N' && t[4] == 'C' && t[5] == 'Y');
            },
            Location::Nantes => {
                assert(t[0] == 'F' && t[1] == 'R' && t[3] == 'N' && t[4] == 'A' && t[5] == 'N');
            },
            Location::Nice => {
                assert(t[0] == 'F' && t[1] == 'R' && t[3] == 'N' && t[4] == 'C' && t[5] == 'E');
            },
            Location::Paris => {
                assert(t[0] == 'F' && t[1] == 'R' && t[3] == 'P' && t[4] == 'A' && t[5] == 'R');
            },
            Location::Rennes => {
                assert(t[0] == 'F' && t[1] == 'R' && t[3] == 'R' && t[4] == 'E' && t[5] == 'N');
            },
            Location::Strasbourg => {
                assert(t[0] == 'F' && t[1] == 'R' && t[3] == 'S' && t[4] == 'T' && t[5] == 'G');
            },
            Location::Toulouse => {
                assert(t[0] == 'F' && t[1] == 'R' && t[3] == 'T' && t[4] == 'L' && t[5] == 'S');
            },
            Location::Cotonou => {
                assert(t[0] == 'B' && t[1] == 'J' && t[3] == 'C' && t[4] == 'O' && t[5] == 'T');
            },
            Location::Tirana => {
                assert(t[0] == 'A' && t[1] == 'L' && t[3] == 'T' && t[4] == 'I' && t[5] == 'R');
            },
            Location::Bruxelles => {
                assert(t[0] == 'B' && t[1] == 'E' && t[3] == 'B' && t[4] == 'R' && t[5] == 'U');
            },
        }
    }

    /// A text that reads as a campus is that campus's code.
    pub proof fn lemma_decode_is_code(text: Seq<char>)
        ensures
            match Location::decode(text) {
                Some(location) => location.spec_code() == text,
                None => forall|location: Location| location.spec_code() != text,
            },
    {
        if Location::decode(text) is None {
            assert forall|location: Location| location.spec_code() != text by {
                match location {
                    Location::Barcelone => {},
                    Location::Berlin => {},
                    Location::Bordeaux => {},
                    Location::LaReunion => {},
                    Location::Lille => {},
                    Location::Lyon => {},
                    Location::Marseille => {},
                    Location::Montpellier => {},
                    Location::Nancy => {},
                    Location::Nantes => {},
                    Location::Nice => {},
                    Location::Paris => {},
                    Location::Rennes => {},
                    Location::Strasbourg => {},
                    Location::Toulouse => {},
                    Location::Cotonou => {},
                    Location::Tirana => {},
                    Location::Bruxelles => {},
                }
            }
        }
    }
}

impl std::str::FromStr for Location {
    type Err = ();

    /// Reads a campus code; any other text is refused.
    fn from_str(string: &str) -> (outcome: Result<Location, ()>)
        ensures
            outcome == match Location::decode(string@) {
                Some(value) => Ok::<Location, ()>(value),
                None => Err::<Location, ()>(()),
            },
    {
        match Location::from_code(string) {
            Some(value) => Ok(value),
            None => Err(()),
        }
    }
}

/// A cohort of students.
#[derive(Debug, Clone, Copy, PartialEq, Eq, PartialOrd, Ord, Hash)]
pub enum Promo {
    Tek1,
    Tek2,
    Tek3,
    Wac1,
    Wac2,
    Msc3,
    Msc4,
}

impl Promo {
    /// The code that stands for this cohort in a URL and in a response.
    pub open spec fn spec_code(self) -> Seq<char> {
        match self {
            Promo::Tek1 => "tek1"@,
            Promo::Tek2 => "tek2"@,
            Promo::Tek3 => "tek3"@,
            Promo::Wac1 => "wac1"@,
            Promo::Wac2 => "wac2"@,
            Promo::Msc3 => "msc3"@,
            Promo::Msc4 => "msc4"@,
        }
    }

    /// The cohort that `text` is the code of, if it is one.
    pub open spec fn decode(text: Seq<char>) -> Option<Promo> {
        if text == "tek1"@ {
            Some(Promo::Tek1)
        } else if text == "tek2"@ {
            Some(Promo::Tek2)
        } else if text == "tek3"@ {
            Some(Promo::Tek3)
        } else if text == "wac1"@ {
            Some(Promo::Wac1)
        } else if text == "wac2"@ {
            Some(Promo::Wac2)
        } else if text == "msc3"@ {
            Some(Promo::Msc3)
        } else if text == "msc4"@ {
            Some(Promo::Msc4)
        } else {
            None
        }
    }

    /// The code of this cohort.
    pub fn code(&self) -> (text: &'static str)
        ensures
            text@ == self.spec_code(),
    {
        match self {
            Promo::Tek1 => "tek1",
            Promo::Tek2 => "tek2",
            Promo::Tek3 => "tek3",
            Promo::Wac1 => "wac1",
            Promo::Wac2 => "wac2",
            Promo::Msc3 => "msc3",
            Promo::Msc4 => "msc4",
        }
    }

    /// Reads a cohort code; `None` for any other text.
    pub fn from_code(text: &str) -> (promo: Option<Promo>)
        ensures
            promo == Promo::decode(text@),
    {
        if same_text(text, "tek1") {
            Some(Promo::Tek1)
        } else if same_text(text, "tek2") {
            Some(Promo::Tek2)
        } else if same_text(text, "tek3") {
            Some(Promo::Tek3)
        } else if same_text(text, "wac1") {
            Some(Promo::Wac1)
        } else if same_text(text, "wac2") {
            Some(Promo::Wac2)
        } else if same_text(text, "msc3") {
            Some(Promo::Msc3)
        } else if same_text(text, "msc4") {
            Some(Promo::Msc4)
        } else {
            None
        }
    }

    /// Reading the code of a cohort gives that cohort back.
    pub proof fn lemma_code_round_trip(self)
        ensures
            Promo::decode(self.spec_code()) == Some(self),
    {
        reveal_strlit("tek1");
        reveal_strlit("tek2");
        reveal_strlit("tek3");
        reveal_strlit("wac1");
        reveal_strlit("wac2");
        reveal_strlit("msc3");
        reveal_strlit("msc4");
        let t = self.spec_code();
        assert(t.len() == 4);
        match self {
            Promo::Tek1 => {},
            Promo::Tek2 => {
                assert(t[3] == '2');
            },
            Promo::Tek3 => {
                assert(t[3] == '3');
            },
            Promo::Wac1 => {
                assert(t[0] == 'w');
            },
            Promo::Wac2 => {
                assert(t[0] == 'w' && t[3] == '2');
            },
            Promo::Msc3 => {
                assert(t[0] == 'm');
            },
            Promo::Msc4 => {
                assert(t[0] == 'm' && t[3] == '4');
            },
        }
    }

    /// A text that reads as a cohort is that cohort's code.
    pub proof fn lemma_decode_is_code(text: Seq<char>)
        ensures
            match Promo::decode(text) {
                Some(promo) => promo.spec_code() == text,
                None => forall|promo: Promo| promo.spec_code() != text,
            },
    {
        if Promo::decode(text) is None {
            assert forall|promo: Promo| promo.spec_code() != text by {
                match promo {
                    Promo::Tek1 => {},
                    Promo::Tek2 => {},
                    Promo::Tek3 => {},
                    Promo::Wac1 => {},
                    Promo::Wac2 => {},
                    Promo::Msc3 => {},
                    Promo::Msc4 => {},
                }
            }
        }
    }
}

impl std::str::FromStr for Promo {
    type Err = ();

    /// Reads a cohort code; any other text is refused.
    fn from_str(string: &str) -> (outcome: Result<Promo, ()>)
        ensures
            outcome == match Promo::decode(string@) {
                Some(value) => Ok::<Promo, ()>(value),
                None => Err::<Promo, ()>(()),
            },
    {
        match Promo::from_code(string) {
            Some(value) => Ok(value),
            None => Err(()),
        }
    }
}

} // verus!
