//! The skill-rating contract's pure kernels and vocabulary types: season
//! numbering and the rating-to-tier mapping with its division bands.

use vstd::prelude::*;

verus! {

/// Competitive tiers, ordered from lowest to highest rating band.
#[derive(Clone, Copy, Debug, PartialEq, Eq, Structural)]
pub enum Tier {
    Bronze,
    Silver,
    Gold,
    Platinum,
    Diamond,
    Master,
    Grandmaster,
}

/// A player's rating record.
#[derive(Clone, Copy, Debug, PartialEq, Eq, Structural)]
pub struct PlayerRating {
    pub rating: i32,
    pub last_update_ts: u64,
    pub season_id: u64,
}

/// One entry of a player's adjustment history.
#[derive(Clone, Copy, Debug, PartialEq, Eq, Structural)]
pub struct HistoryEntry {
    pub timestamp: u64,
    pub delta: i32,
    pub new_rating: i32,
    pub difficulty: u32,
    pub result_permill: i32,
    pub expected_permill: i32,
}

/// Why a rating operation was refused.
#[derive(Clone, Copy, Debug, PartialEq, Eq, Structural)]
pub enum Error {
    AlreadyInitialized,
    NotInitialized,
    Unauthorized,
    InvalidParams,
}

/// The lower bound of the tier band a rating falls in.
pub open spec fn tier_floor(rating: i32) -> int {
    if rating < 1000 {
        0
    } else if rating < 1200 {
        1000
    } else if rating < 1400 {
        1200
    } else if rating < 1600 {
        1400
    } else if rating < 1800 {
        1600
    } else if rating < 2000 {
        1800
    } else {
        2000
    }
}

/// The width of the tier band a rating falls in; the open-ended top tier
/// uses a 400-point band for division placement.
pub open spec fn tier_span(rating: i32) -> int {
    if rating < 1000 {
        1000
    } else if rating < 2000 {
        200
    } else {
        400
    }
}

/// The tier a rating falls in.
pub open spec fn tier_of(rating: i32) -> Tier {
    if rating < 1000 {
        Tier::Bronze
    } else if rating < 1200 {
        Tier::Silver
    } else if rating < 1400 {
        Tier::Gold
    } else if rating < 1600 {
        Tier::Platinum
    } else if rating < 1800 {
        Tier::Diamond
    } else if rating < 2000 {
        Tier::Master
    } else {
        Tier::Grandmaster
    }
}

/// The division within the tier, 5 down to 1 as the rating climbs through
/// the band, floored at 1 for ratings at or beyond the band's top.
pub open spec fn division_of(rating: i32) -> int {
    let floor = tier_floor(rating);
    let span = tier_span(rating);
    let pos = if rating < floor {
        0
    } else if rating - floor > span {
        span
    } else {
        rating - floor
    };
    let division = 5 - pos * 5 / span;
    if division < 1 {
        1
    } else {
        division
    }
}

pub struct SkillRating;

impl SkillRating {
    /// The season a timestamp falls in: seasons are consecutive windows of
    /// `season_len` seconds, numbered from zero; a zero length pins
    /// everything to season zero.
    pub fn season_id_for(now: u64, season_len: u64) -> (r: u64)
        ensures
            r == (if season_len == 0 {
                0u64
            } else {
                (now / season_len) as u64
            }),
    {
        if season_len == 0 {
            0
        } else {
            now / season_len
        }
    }

    /// The tier and division a rating places in: the tier by its rating
    /// band, the division from 5 down to 1 by the position inside the band.
    pub fn tier_for(rating: i32) -> (r: (Tier, u32))
        ensures
            r.0 == tier_of(rating),
            r.1 == division_of(rating),
            1 <= r.1 <= 5,
    {
        let (tier, floor, span): (Tier, i32, i32) = if rating < 1000 {
            (Tier::Bronze, 0, 1000)
        } else if rating < 1200 {
            (Tier::Silver, 1000, 200)
        } else if rating < 1400 {
            (Tier::Gold, 1200, 200)
        } else if rating < 1600 {
            (Tier::Platinum, 1400, 200)
        } else if rating < 1800 {
            (Tier::Diamond, 1600, 200)
        } else if rating < 2000 {
            (Tier::Master, 1800, 200)
        } else {
            (Tier::Grandmaster, 2000, 400)
        };
        let diff: i32 = if rating < floor {
            0
        } else {
            rating - floor
        };
        let pos: i32 = if diff > span {
            span
        } else {
            diff
        };
        let division: i32 = 5 - (pos * 5) / span;
        let out: i32 = if division < 1 {
            1
        } else {
            division
        };
        (tier, out as u32)
    }
}

} // verus!
