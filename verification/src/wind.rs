use vstd::prelude::*;

verus! {

/// The eight directions the wind is shown coming from.
#[derive(PartialEq, Eq, Structural, Debug, Clone, Copy)]
pub enum WindDirection {
    NW,
    N,
    NE,
    E,
    SE,
    S,
    SW,
    W,
}

impl WindDirection {
    /// The arrow icon of a direction.
    pub open spec fn icon(self) -> char {
        match self {
            WindDirection::N => '\u{f544}',
            WindDirection::NE => '\u{f541}',
            WindDirection::E => '\u{f54c}',
            WindDirection::SE => '\u{f55a}',
            WindDirection::S => '\u{2191}',
            WindDirection::SW => '\u{f55b}',
            WindDirection::W => '\u{f553}',
            WindDirection::NW => '\u{f542}',
        }
    }

    /// The name of a direction, as it is printed.
    pub open spec fn name(self) -> Seq<char> {
        match self {
            WindDirection::N => "N"@,
            WindDirection::NE => "NE"@,
            WindDirection::E => "E"@,
            WindDirection::SE => "SE"@,
            WindDirection::S => "S"@,
            WindDirection::SW => "SW"@,
            WindDirection::W => "W"@,
            WindDirection::NW => "NW"@,
        }
    }

    pub fn get_icon(&self) -> (r: char)
        ensures
            r == self.icon(),
    {
        match *self {
            Self::N => '\u{f544}',
            Self::NE => '\u{f541}',
            Self::E => '\u{f54c}',
            Self::SE => '\u{f55a}',
            Self::S => '\u{2191}',
            Self::SW => '\u{f55b}',
            Self::W => '\u{f553}',
            Self::NW => '\u{f542}',
        }
    }

    pub fn as_str(&self) -> (r: &'static str)
        ensures
            r@ == self.name(),
    {
        match *self {
            Self::N => "N",
            Self::NE => "NE",
            Self::E => "E",
            Self::SE => "SE",
            Self::S => "S",
            Self::SW => "SW",
            Self::W => "W",
            Self::NW => "NW",
        }
    }
}

/// Each direction is shown with its own arrow and its compass abbreviation
/// (N, NE, E, SE, S, SW, W, NW); no two directions look alike.
pub proof fn lemma_directions_shown_apart(a: WindDirection, b: WindDirection)
    ensures
        WindDirection::N.name() == "N"@ && WindDirection::NE.name() == "NE"@ && WindDirection::E.name() == "E"@,
        WindDirection::SE.name() == "SE"@ && WindDirection::S.name() == "S"@ && WindDirection::SW.name() == "SW"@,
        WindDirection::W.name() == "W"@ && WindDirection::NW.name() == "NW"@,
        WindDirection::N.icon() == '\u{f544}' && WindDirection::NE.icon() == '\u{f541}' && WindDirection::E.icon()
            == '\u{f54c}' && WindDirection::SE.icon() == '\u{f55a}',
        WindDirection::S.icon() == '\u{2191}' && WindDirection::SW.icon() == '\u{f55b}' && WindDirection::W.icon()
            == '\u{f553}' && WindDirection::NW.icon() == '\u{f542}',
        a != b ==> a.icon() != b.icon() && a.name() != b.name(),
{
    reveal_strlit("N");
    reveal_strlit("NE");
    reveal_strlit("E");
    reveal_strlit("SE");
    reveal_strlit("S");
    reveal_strlit("SW");
    reveal_strlit("W");
    reveal_strlit("NW");
    assert("N"@.len() == 1 && "E"@.len() == 1 && "S"@.len() == 1 && "W"@.len() == 1);
    assert("NE"@.len() == 2 && "SE"@.len() == 2 && "SW"@.len() == 2 && "NW"@.len() == 2);
    assert("N"@[0] == 'N' && "E"@[0] == 'E' && "S"@[0] == 'S' && "W"@[0] == 'W');
    assert("NE"@[0] == 'N' && "SE"@[0] == 'S' && "SW"@[0] == 'S' && "NW"@[0] == 'N');
    assert("NE"@[1] == 'E' && "SE"@[1] == 'E' && "SW"@[1] == 'W' && "NW"@[1] == 'W');
}

} // verus!
