//! Where the three hands of the clock point at a given time, and the
//! shapes they are drawn with.
//!
//! Angles are whole numbers of *turn units*: a full turn is [`TURN`] units,
//! the number of milliseconds in twelve hours, so that every position a hand
//! takes is a whole number of units. Angles are measured clockwise from
//! twelve o'clock.

use vstd::prelude::*;

verus! {

/// The number of turn units in one full turn.
pub const TURN: u64 = 43_200_000;

/// Milliseconds in a minute, an hour and twelve hours.
pub const MILLIS_PER_MINUTE: u64 = 60_000;

pub const MILLIS_PER_HOUR: u64 = 3_600_000;

pub const MILLIS_PER_TWELVE_HOURS: u64 = 43_200_000;

/// A reading of the wall clock, as the hands show it.
#[derive(Clone, Copy, Debug, PartialEq, Eq)]
pub struct ClockTime {
    /// Hour on the dial, `0` standing for twelve o'clock.
    pub hour: u32,
    pub minute: u32,
    pub second: u32,
    /// Milliseconds into the second; above 999 during a leap second.
    pub millis: u32,
}

impl ClockTime {
    /// The ranges a reading of the clock falls in.
    pub open spec fn is_reading(self) -> bool {
        &&& self.hour < 12
        &&& self.minute < 60
        &&& self.second < 60
        &&& self.millis < 2000
    }

    /// Builds a reading from a 12-hour clock hour (`1..=12`), twelve becoming
    /// the dial's `0`.
    pub fn from_hour12(hour12: u32, minute: u32, second: u32, millis: u32) -> (t: ClockTime)
        ensures
            t.hour == hour12 % 12,
            t.minute == minute,
            t.second == second,
            t.millis == millis,
    {
        ClockTime { hour: hour12 % 12, minute, second, millis }
    }
}

/// Milliseconds elapsed in the current minute.
pub open spec fn millis_into_minute(second: nat, millis: nat) -> nat {
    second * 1000 + millis
}

/// Milliseconds elapsed in the current hour.
pub open spec fn millis_into_hour(minute: nat, second: nat, millis: nat) -> nat {
    minute * 60_000 + millis_into_minute(second, millis)
}

/// Milliseconds elapsed since twelve o'clock, counted in whole seconds.
pub open spec fn whole_seconds_into_dial(hour: nat, minute: nat, second: nat) -> nat {
    hour * 3_600_000 + millis_into_hour(minute, second, 0)
}

/// The second hand turns once a minute, sweeping smoothly with the milliseconds.
pub open spec fn second_hand_spec(second: nat, millis: nat) -> nat {
    millis_into_minute(second, millis) * (TURN as nat) / (MILLIS_PER_MINUTE as nat)
}

/// The long (minute) hand turns once an hour, sweeping smoothly with the
/// seconds and milliseconds.
pub open spec fn long_hand_spec(minute: nat, second: nat, millis: nat) -> nat {
    millis_into_hour(minute, second, millis) * (TURN as nat) / (MILLIS_PER_HOUR as nat)
}

/// The short (hour) hand turns once in twelve hours, moving with every
/// minute and second.
pub open spec fn short_hand_spec(hour: nat, minute: nat, second: nat) -> nat {
    whole_seconds_into_dial(hour, minute, second) * (TURN as nat) / (MILLIS_PER_TWELVE_HOURS as nat)
}

proof fn lemma_scaled(x: nat, unit: nat, per: nat)
    requires
        per > 0,
        TURN as nat == unit * per,
    ensures
        x * (TURN as nat) / per == x * unit,
{
    assert(x * (TURN as nat) == (x * unit) * per) by (nonlinear_arith)
        requires
            TURN as nat == unit * per,
    ;
    vstd::arithmetic::div_mod::lemma_div_multiples_vanish((x * unit) as int, per as int);
    assert(per * (x * unit) == (x * unit) * per) by (nonlinear_arith);
}

/// The angle of the second hand, `second` seconds and `millis` milliseconds
/// into the minute.
pub fn second_hand_angle(second: u32, millis: u32) -> (angle: u64)
    ensures
        angle == second_hand_spec(second as nat, millis as nat),
{
    proof {
        lemma_scaled(millis_into_minute(second as nat, millis as nat), 720, MILLIS_PER_MINUTE as nat);
    }
    second as u64 * 720_000 + millis as u64 * 720
}

/// The angle of the long hand.
pub fn long_hand_angle(minute: u32, second: u32, millis: u32) -> (angle: u64)
    ensures
        angle == long_hand_spec(minute as nat, second as nat, millis as nat),
{
    proof {
        lemma_scaled(
            millis_into_hour(minute as nat, second as nat, millis as nat),
            12,
            MILLIS_PER_HOUR as nat,
        );
    }
    minute as u64 * 720_000 + second as u64 * 12_000 + millis as u64 * 12
}

/// The angle of the short hand.
pub fn short_hand_angle(hour: u32, minute: u32, second: u32) -> (angle: u64)
    ensures
        angle == short_hand_spec(hour as nat, minute as nat, second as nat),
{
    proof {
        lemma_scaled(
            whole_seconds_into_dial(hour as nat, minute as nat, second as nat),
            1,
            MILLIS_PER_TWELVE_HOURS as nat,
        );
    }
    hour as u64 * 3_600_000 + minute as u64 * 60_000 + second as u64 * 1000
}

/// The outline of a hand, in parts of the radius (see
/// [`crate::dial::RADIUS_PARTS`]): a kite from the center, widest at
/// `shoulder` from the center where it is `2 * half_width` wide, ending in a
/// point at `length` from the center. It is drawn pointing at twelve o'clock
/// and turned by the hand's angle.
#[derive(Clone, Copy, Debug, PartialEq, Eq)]
pub struct HandShape {
    pub half_width: u32,
    pub shoulder: u32,
    pub length: u32,
}

/// The thin, long second hand.
pub open spec fn second_hand_outline() -> HandShape {
    HandShape { half_width: 3, shoulder: 90, length: 270 }
}

/// The long (minute) hand: as long as the second hand, four times as wide.
pub open spec fn long_hand_outline() -> HandShape {
    HandShape { half_width: 12, shoulder: 90, length: 270 }
}

/// The short (hour) hand: the widest and shortest.
pub open spec fn short_hand_outline() -> HandShape {
    HandShape { half_width: 18, shoulder: 60, length: 165 }
}

/// A hand ready to be drawn: its outline and its angle in turn units.
#[derive(Clone, Copy, Debug, PartialEq, Eq)]
pub struct Hand {
    pub shape: HandShape,
    pub angle: u64,
}

/// The hands at time `t`, in the order they are painted: second hand first,
/// then the long hand, the short hand last and on top.
pub open spec fn hands_spec(t: ClockTime) -> Seq<Hand> {
    seq![
        Hand {
            shape: second_hand_outline(),
            angle: second_hand_spec(t.second as nat, t.millis as nat) as u64,
        },
        Hand {
            shape: long_hand_outline(),
            angle: long_hand_spec(t.minute as nat, t.second as nat, t.millis as nat) as u64,
        },
        Hand {
            shape: short_hand_outline(),
            angle: short_hand_spec(t.hour as nat, t.minute as nat, t.second as nat) as u64,
        },
    ]
}

/// The hands to paint at time `t`.
pub fn hands_at(t: &ClockTime) -> (hands: Vec<Hand>)
    ensures
        hands@ == hands_spec(*t),
{
    let second = Hand {
        shape: HandShape { half_width: 3, shoulder: 90, length: 270 },
        angle: second_hand_angle(t.second, t.millis),
    };
    let long = Hand {
        shape: HandShape { half_width: 12, shoulder: 90, length: 270 },
        angle: long_hand_angle(t.minute, t.second, t.millis),
    };
    let short = Hand {
        shape: HandShape { half_width: 18, shoulder: 60, length: 165 },
        angle: short_hand_angle(t.hour, t.minute, t.second),
    };
    let hands = vec![second, long, short];
    assert(hands@ =~= hands_spec(*t));
    hands
}

/// The hands `hands_at` paints at time `t`, in terms of `t`'s own fields: the
/// second hand 720,000 units a second and 720 a millisecond (six degrees and
/// six thousandths of a degree, at 120,000 units a degree), the long hand
/// 720,000 units a minute, 12,000 a second and 12 a millisecond, the short
/// hand 3,600,000 units an hour, 60,000 a minute and 1,000 a second; outlines
/// in that order thin and long, wide and long, widest and short.
pub proof fn lemma_hands_of_reading(t: ClockTime)
    ensures
        hands_spec(t).len() == 3,
        hands_spec(t)[0].angle == t.second * 720_000 + t.millis * 720,
        hands_spec(t)[1].angle == t.minute * 720_000 + t.second * 12_000 + t.millis * 12,
        hands_spec(t)[2].angle == t.hour * 3_600_000 + t.minute * 60_000 + t.second * 1000,
        hands_spec(t)[0].shape == (HandShape { half_width: 3, shoulder: 90, length: 270 }),
        hands_spec(t)[1].shape == (HandShape { half_width: 12, shoulder: 90, length: 270 }),
        hands_spec(t)[2].shape == (HandShape { half_width: 18, shoulder: 60, length: 165 }),
{
    lemma_scaled(millis_into_minute(t.second as nat, t.millis as nat), 720, MILLIS_PER_MINUTE as nat);
    lemma_scaled(
        millis_into_hour(t.minute as nat, t.second as nat, t.millis as nat),
        12,
        MILLIS_PER_HOUR as nat,
    );
    lemma_scaled(
        whole_seconds_into_dial(t.hour as nat, t.minute as nat, t.second as nat),
        1,
        MILLIS_PER_TWELVE_HOURS as nat,
    );
}

/// The short hand is the long hand slowed down twelvefold: it stands on the
/// hour's mark, plus a twelfth of the way the long hand has gone this hour.
pub proof fn lemma_short_hand_follows_long_hand(hour: nat, minute: nat, second: nat)
    ensures
        short_hand_spec(hour, minute, second) == hour * ((TURN / 12) as nat) + long_hand_spec(
            minute,
            second,
            0,
        ) / 12,
{
    lemma_scaled(whole_seconds_into_dial(hour, minute, second), 1, MILLIS_PER_TWELVE_HOURS as nat);
    lemma_scaled(millis_into_hour(minute, second, 0), 12, MILLIS_PER_HOUR as nat);
    let x = millis_into_hour(minute, second, 0);
    vstd::arithmetic::div_mod::lemma_div_multiples_vanish(x as int, 12);
    assert(12 * x == x * 12) by (nonlinear_arith);
}

/// The long hand is the second hand slowed down sixtyfold: it stands on the
/// minute's mark, plus a sixtieth of the way the second hand has gone this
/// minute.
pub proof fn lemma_long_hand_follows_second_hand(minute: nat, second: nat, millis: nat)
    ensures
        long_hand_spec(minute, second, millis) == minute * ((TURN / 60) as nat)
            + second_hand_spec(second, millis) / 60,
{
    lemma_scaled(millis_into_hour(minute, second, millis), 12, MILLIS_PER_HOUR as nat);
    lemma_scaled(millis_into_minute(second, millis), 720, MILLIS_PER_MINUTE as nat);
    let x = millis_into_minute(second, millis);
    vstd::arithmetic::div_mod::lemma_div_multiples_vanish((x * 12) as int, 60);
    assert(x * 720 == 60 * (x * 12)) by (nonlinear_arith);
    assert((minute * 60_000 + x) * 12 == minute * 720_000 + x * 12) by (nonlinear_arith);
}

/// Outside a leap second no hand has gone a full turn: every angle is less
/// than [`TURN`].
pub proof fn lemma_hands_within_a_turn(t: ClockTime)
    requires
        t.is_reading(),
        t.millis < 1000,
    ensures
        second_hand_spec(t.second as nat, t.millis as nat) < TURN,
        long_hand_spec(t.minute as nat, t.second as nat, t.millis as nat) < TURN,
        short_hand_spec(t.hour as nat, t.minute as nat, t.second as nat) < TURN,
{
    lemma_scaled(millis_into_minute(t.second as nat, t.millis as nat), 720, MILLIS_PER_MINUTE as nat);
    lemma_scaled(
        millis_into_hour(t.minute as nat, t.second as nat, t.millis as nat),
        12,
        MILLIS_PER_HOUR as nat,
    );
    lemma_scaled(
        whole_seconds_into_dial(t.hour as nat, t.minute as nat, t.second as nat),
        1,
        MILLIS_PER_TWELVE_HOURS as nat,
    );
}

/// The short hand never goes backwards within the twelve hours of the dial:
/// a later time (by hour, then minute, then second) puts it no further back.
pub proof fn lemma_short_hand_moves_forward(earlier: ClockTime, later: ClockTime)
    requires
        earlier.is_reading(),
        later.is_reading(),
        (earlier.hour, earlier.minute, earlier.second) == (later.hour, later.minute, later.second)
            || earlier.hour < later.hour || (earlier.hour == later.hour && earlier.minute
            < later.minute) || (earlier.hour == later.hour && earlier.minute == later.minute
            && earlier.second < later.second),
    ensures
        short_hand_spec(earlier.hour as nat, earlier.minute as nat, earlier.second as nat)
            <= short_hand_spec(later.hour as nat, later.minute as nat, later.second as nat),
{
    lemma_scaled(
        whole_seconds_into_dial(earlier.hour as nat, earlier.minute as nat, earlier.second as nat),
        1,
        MILLIS_PER_TWELVE_HOURS as nat,
    );
    lemma_scaled(
        whole_seconds_into_dial(later.hour as nat, later.minute as nat, later.second as nat),
        1,
        MILLIS_PER_TWELVE_HOURS as nat,
    );
}

} // verus!
