//! Utilization bands and the rule that sorts an average into one.

use vstd::prelude::*;

verus! {

/// How many units of an average make one percent: averages are held in
/// millionths of a percent.
pub const UNITS_PER_PERCENT: u128 = 1_000_000;

/// From this average on a workload is overutilized: 90 percent.
pub const OVERUTILIZED_FROM: u128 = 90_000_000;

/// Up to this average a workload is underutilized: 10 percent.
pub const UNDERUTILIZED_UP_TO: u128 = 10_000_000;

/// The utilization band of a workload.
#[derive(Debug, Clone, Copy, PartialEq, Eq, Structural)]
pub enum Band {
    Overutilized,
    Underutilized,
    Normal,
}

/// The colour in which a band is shown.
#[derive(Debug, Clone, Copy, PartialEq, Eq, Structural)]
pub enum BandColor {
    Red,
    Yellow,
    Green,
}

/// The colour of a band: red for too much use, yellow for too little, green
/// for the rest.
pub open spec fn band_color(band: Band) -> BandColor {
    match band {
        Band::Overutilized => BandColor::Red,
        Band::Underutilized => BandColor::Yellow,
        Band::Normal => BandColor::Green,
    }
}

/// The band of an average, given in millionths of a percent: both limits
/// belong to the outer bands.
pub open spec fn band_of(average: nat) -> Band {
    if average >= OVERUTILIZED_FROM {
        Band::Overutilized
    } else if average <= UNDERUTILIZED_UP_TO {
        Band::Underutilized
    } else {
        Band::Normal
    }
}

/// The label of a band, as it is shown and searched.
pub open spec fn band_label(band: Band) -> Seq<char> {
    match band {
        Band::Overutilized => "Overutilized"@,
        Band::Underutilized => "Underutilized"@,
        Band::Normal => "Normal"@,
    }
}

/// Sorts an average, given in millionths of a percent, into its band.
pub fn classify(average: u128) -> (band: Band)
    ensures
        band == band_of(average as nat),
{
    if average >= OVERUTILIZED_FROM {
        Band::Overutilized
    } else if average <= UNDERUTILIZED_UP_TO {
        Band::Underutilized
    } else {
        Band::Normal
    }
}

impl Band {
    /// The colour in which this band is shown.
    pub fn color(&self) -> (color: BandColor)
        ensures
            color == band_color(*self),
    {
        match self {
            Band::Overutilized => BandColor::Red,
            Band::Underutilized => BandColor::Yellow,
            Band::Normal => BandColor::Green,
        }
    }

    /// Whether this band is shown with emphasis: the two outer bands are.
    pub fn is_outer(&self) -> (outer: bool)
        ensures
            outer == (*self != Band::Normal),
    {
        match self {
            Band::Normal => false,
            _ => true,
        }
    }

    /// The label of this band.
    pub fn label(&self) -> (text: String)
        ensures
            text@ == band_label(*self),
    {
        match self {
            Band::Overutilized => "Overutilized".to_owned(),
            Band::Underutilized => "Underutilized".to_owned(),
            Band::Normal => "Normal".to_owned(),
        }
    }
}

} // verus!
