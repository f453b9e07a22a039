//! The face of the clock: a filled disc, twelve hour ticks, a center pin,
//! forty-eight minute dots and the twelve numerals.
//!
//! Lengths are in parts of the radius, [`RADIUS_PARTS`] parts making one
//! radius; angles are in the turn units of [`crate::hands::TURN`].

use vstd::prelude::*;

use crate::color::{pack_rgba, packed_color, OPAQUE_BLACK};
use crate::hands::{second_hand_spec, short_hand_spec, TURN};

verus! {

/// The number of parts one radius is divided into.
pub const RADIUS_PARTS: u32 = 300;

/// An hour tick is a bar from `MAJOR_TICK_OUTER - MAJOR_TICK_LENGTH` to
/// `MAJOR_TICK_OUTER` from the center, `MAJOR_TICK_THICKNESS` thick.
pub const MAJOR_TICK_OUTER: u32 = 294;

pub const MAJOR_TICK_LENGTH: u32 = 30;

pub const MAJOR_TICK_THICKNESS: u32 = 10;

/// Radius of the pin in the center.
pub const CENTER_PIN_RADIUS: u32 = 15;

/// A minute dot is a disc of `MINOR_TICK_RADIUS` centred at
/// `MINOR_TICK_DISTANCE` from the center.
pub const MINOR_TICK_DISTANCE: u32 = 279;

pub const MINOR_TICK_RADIUS: u32 = 5;

/// The numerals are centred at `NUMERAL_DISTANCE` from the center and drawn
/// `NUMERAL_FONT_SIZE` high.
pub const NUMERAL_DISTANCE: u32 = 210;

pub const NUMERAL_FONT_SIZE: u32 = 75;

/// Turn units between two neighbouring minute positions, and between two
/// neighbouring hour positions.
pub const MINUTE_STEP: u64 = 720_000;

pub const HOUR_STEP: u64 = 3_600_000;

/// What a shape on the face is.
#[derive(Clone, Copy, Debug, PartialEq, Eq)]
pub enum DialMark {
    /// The disc filling the face, of radius [`RADIUS_PARTS`].
    Background,
    /// An hour tick.
    MajorTick,
    /// The pin in the center.
    CenterPin,
    /// A minute dot.
    MinorTick,
}

/// A shape of the face. Ticks are laid out pointing at three o'clock and
/// turned clockwise by `angle` turn units; the disc and the pin are centred
/// and not turned (`angle` is `0`). `color` is a packed `0xRRGGBBAA` word.
#[derive(Clone, Copy, Debug, PartialEq, Eq)]
pub struct DialShape {
    pub mark: DialMark,
    pub angle: u64,
    pub color: u32,
}

/// The `k`-th minute dot's position, in minutes clockwise from three
/// o'clock: the positions `1, 2, 3, 4, 6, 7, ...` that are not multiples of
/// five, in increasing order (see [`lemma_minor_positions`]).
pub open spec fn minor_position(k: int) -> int {
    k + k / 4 + 1
}

pub open spec fn background_shape(color: u32) -> DialShape {
    DialShape { mark: DialMark::Background, angle: 0, color }
}

pub open spec fn center_pin_shape() -> DialShape {
    DialShape { mark: DialMark::CenterPin, angle: 0, color: OPAQUE_BLACK }
}

/// The twelve hour ticks, every twelfth of a turn starting at three o'clock.
pub open spec fn major_scale() -> Seq<DialShape> {
    Seq::new(
        12,
        |i: int| DialShape { mark: DialMark::MajorTick, angle: (i * HOUR_STEP) as u64, color: OPAQUE_BLACK },
    )
}

/// The forty-eight minute dots, one on every sixtieth of a turn that has no
/// hour tick.
pub open spec fn minor_scale() -> Seq<DialShape> {
    Seq::new(
        48,
        |k: int|
            DialShape {
                mark: DialMark::MinorTick,
                angle: (minor_position(k) * MINUTE_STEP) as u64,
                color: OPAQUE_BLACK,
            },
    )
}

/// The shapes of a face with the given background color, in the order they
/// are painted: the disc, the hour ticks, the pin, the minute dots.
pub open spec fn face_shapes(background_color: u32) -> Seq<DialShape> {
    seq![background_shape(background_color)] + major_scale() + seq![center_pin_shape()]
        + minor_scale()
}

/// The minute dots sit exactly on the positions that are not multiples of
/// five: each such position below sixty holds the dot of index
/// `p - (p + 4) / 5`, the dots' positions strictly increase, and none of
/// them is a multiple of five.
pub proof fn lemma_minor_positions()
    ensures
        forall|k: int| 0 <= k < 48 ==> 0 < #[trigger] minor_position(k) < 60 && minor_position(k) % 5 != 0,
        forall|k: int, l: int| 0 <= k < l < 48 ==> #[trigger] minor_position(k) < #[trigger] minor_position(l),
        forall|p: int|
            0 <= p < 60 && p % 5 != 0 ==> 0 <= #[trigger] (p - (p + 4) / 5) < 48 && minor_position(
                p - (p + 4) / 5,
            ) == p,
{
    assert forall|p: int| 0 <= p < 60 && p % 5 != 0 implies 0 <= #[trigger] (p - (p + 4) / 5) < 48
        && minor_position(p - (p + 4) / 5) == p by {
        let k = p - (p + 4) / 5;
        assert(k + k / 4 + 1 == p);
    }
}

/// A numeral of the face: `label` is the number shown, `angle` the direction
/// of its center, clockwise from twelve o'clock in turn units.
#[derive(Clone, Copy, Debug, PartialEq, Eq)]
pub struct Numeral {
    pub label: u32,
    pub angle: u64,
}

/// The number shown at hour position `i`, `0` being the top.
pub open spec fn numeral_label(i: int) -> u32 {
    if i == 0 {
        12
    } else {
        i as u32
    }
}

/// The twelve numerals, from the top clockwise: 12, 1, 2, ..., 11.
pub open spec fn numerals_spec() -> Seq<Numeral> {
    Seq::new(12, |i: int| Numeral { label: numeral_label(i), angle: (i * HOUR_STEP) as u64 })
}

/// The numerals read 12 at the top and 1 to 11 clockwise after it, numeral
/// `i` a twelfth of a turn further than numeral `i - 1`.
pub proof fn lemma_numerals_around_the_dial()
    ensures
        numerals_spec().len() == 12,
        numerals_spec()[0] == (Numeral { label: 12, angle: 0 }),
        forall|i: int|
            1 <= i < 12 ==> #[trigger] numerals_spec()[i] == (Numeral {
                label: i as u32,
                angle: (i * 3_600_000) as u64,
            }),
{
}

/// The numerals to write on the face, from the top clockwise.
pub fn numerals() -> (numerals: Vec<Numeral>)
    ensures
        numerals@ == numerals_spec(),
{
    let mut numerals: Vec<Numeral> = Vec::new();
    let mut i: u64 = 0;
    while i < 12
        invariant
            i <= 12,
            numerals@ == numerals_spec().take(i as int),
        decreases 12 - i,
    {
        let label: u32 = if i == 0 {
            12
        } else {
            i as u32
        };
        let numeral = Numeral { label, angle: i * HOUR_STEP };
        numerals.push(numeral);
        assert(numerals_spec().take(i + 1) =~= numerals_spec().take(i as int).push(numeral));
        i = i + 1;
    }
    assert(numerals_spec().take(12) =~= numerals_spec());
    numerals
}

/// At `hour12` o'clock sharp the short hand points at the numeral that
/// shows `hour12`.
pub proof fn lemma_short_hand_on_numeral(hour12: u32)
    requires
        1 <= hour12 <= 12,
    ensures
        numerals_spec()[(hour12 % 12) as int].label == hour12,
        short_hand_spec((hour12 % 12) as nat, 0, 0) == numerals_spec()[(hour12 % 12) as int].angle,
{
    let h = hour12 % 12;
    crate::hands::lemma_short_hand_follows_long_hand(h as nat, 0, 0);
    assert(crate::hands::long_hand_spec(0, 0, 0) == 0);
}

/// The direction a tick points at, clockwise from twelve o'clock, when the
/// drawing layer turns shapes clockwise as it does the hands: a tick laid
/// out at three o'clock already stands a quarter turn from twelve.
pub open spec fn tick_direction(shape: DialShape) -> int {
    (shape.angle + TURN / 4) % (TURN as int)
}

/// The position, in minutes clockwise from three o'clock, of the tick that
/// points at minute `s` from twelve o'clock.
pub open spec fn tick_position_for(s: int) -> int {
    (s + 45) % 60
}

proof fn lemma_direction_of_position(a: int)
    requires
        0 <= a < 60,
    ensures
        (a * MINUTE_STEP + TURN / 4) % (TURN as int) == ((a + 15) % 60) * MINUTE_STEP,
{
    if a < 45 {
        assert(a * MINUTE_STEP + TURN / 4 == (a + 15) * MINUTE_STEP);
        vstd::arithmetic::div_mod::lemma_small_mod(((a + 15) * MINUTE_STEP) as nat, TURN as nat);
    } else {
        assert(a * MINUTE_STEP + TURN / 4 == (a - 45) * MINUTE_STEP + TURN);
        vstd::arithmetic::div_mod::lemma_mod_add_multiples_vanish(((a - 45) * MINUTE_STEP) as int, TURN as int);
        vstd::arithmetic::div_mod::lemma_small_mod(((a - 45) * MINUTE_STEP) as nat, TURN as nat);
    }
}

/// At every whole second `s` the second hand points at exactly one tick of
/// the face: the hour tick at position `tick_position_for(s) / 5` when `s` is
/// a multiple of five, the minute dot of index `p - (p + 4) / 5` for
/// `p == tick_position_for(s)` otherwise; no other tick points there.
pub proof fn lemma_second_hand_on_tick(s: int)
    requires
        0 <= s < 60,
    ensures
        forall|i: int|
            0 <= i < 12 ==> (tick_direction(#[trigger] major_scale()[i]) == second_hand_spec(s as nat, 0)
                <==> (s % 5 == 0 && i == tick_position_for(s) / 5)),
        forall|k: int|
            0 <= k < 48 ==> (tick_direction(#[trigger] minor_scale()[k]) == second_hand_spec(s as nat, 0)
                <==> (s % 5 != 0 && k == tick_position_for(s) - (tick_position_for(s) + 4) / 5)),
{
    let target = second_hand_spec(s as nat, 0);
    assert(target == s * MINUTE_STEP) by {
        crate::hands::lemma_long_hand_follows_second_hand(0, s as nat, 0);
        assert(crate::hands::long_hand_spec(0, s as nat, 0) == (s * 1000) * 12);
    }
    assert forall|i: int| 0 <= i < 12 implies (tick_direction(#[trigger] major_scale()[i]) == target
        <==> (s % 5 == 0 && i == tick_position_for(s) / 5)) by {
        lemma_direction_of_position(5 * i);
        assert(major_scale()[i].angle == (5 * i) * MINUTE_STEP);
    }
    lemma_minor_positions();
    assert forall|k: int| 0 <= k < 48 implies (tick_direction(#[trigger] minor_scale()[k]) == target
        <==> (s % 5 != 0 && k == tick_position_for(s) - (tick_position_for(s) + 4) / 5)) by {
        let p = minor_position(k);
        assert(0 < p < 60 && p % 5 != 0);
        lemma_direction_of_position(p);
        let q = tick_position_for(s);
        if s % 5 != 0 {
            assert(q % 5 != 0);
            assert(minor_position(q - (q + 4) / 5) == q);
            if k != q - (q + 4) / 5 {
                let l = q - (q + 4) / 5;
                assert(minor_position(k) != minor_position(l)) by {
                    if k < l {
                        assert(minor_position(k) < minor_position(l));
                    } else {
                        assert(minor_position(l) < minor_position(k));
                    }
                }
            }
        }
    }
}

/// A laid-out face holds 62 shapes: the disc first, the twelve hour ticks,
/// the pin at index 13, then the forty-eight minute dots.
pub proof fn lemma_face_layout(background_color: u32)
    ensures
        face_shapes(background_color).len() == 62,
        face_shapes(background_color)[0] == background_shape(background_color),
        forall|i: int| 0 <= i < 12 ==> #[trigger] face_shapes(background_color)[1 + i] == major_scale()[i],
        face_shapes(background_color)[13] == center_pin_shape(),
        forall|k: int| 0 <= k < 48 ==> #[trigger] face_shapes(background_color)[14 + k] == minor_scale()[k],
{
    let f = face_shapes(background_color);
    assert forall|i: int| 0 <= i < 12 implies #[trigger] f[1 + i] == major_scale()[i] by {}
    assert forall|k: int| 0 <= k < 48 implies #[trigger] f[14 + k] == minor_scale()[k] by {}
}

/// Every face, whatever its color `c`, is laid out the same way: first the
/// full disc in color `c`; then opaque black hour ticks at every twelfth of
/// a turn from three o'clock; then the opaque black pin; then forty-eight
/// opaque black minute dots, one on each sixtieth of a turn that is not a
/// multiple of five sixtieths, in increasing order.
pub proof fn lemma_face_of_color(c: u32)
    ensures
        face_shapes(c).len() == 62,
        face_shapes(c)[0] == (DialShape { mark: DialMark::Background, angle: 0, color: c }),
        forall|i: int|
            0 <= i < 12 ==> #[trigger] face_shapes(c)[1 + i] == (DialShape {
                mark: DialMark::MajorTick,
                angle: (i * 3_600_000) as u64,
                color: 0x0000_00ff,
            }),
        face_shapes(c)[13] == (DialShape { mark: DialMark::CenterPin, angle: 0, color: 0x0000_00ff }),
        forall|k: int|
            0 <= k < 48 ==> {
                let dot = #[trigger] face_shapes(c)[14 + k];
                &&& dot.mark == DialMark::MinorTick
                &&& dot.color == 0x0000_00ff
                &&& dot.angle % 720_000 == 0
                &&& 0 < dot.angle / 720_000 < 60
                &&& (dot.angle / 720_000) % 5 != 0
            },
        forall|k: int, l: int|
            0 <= k < l < 48 ==> #[trigger] face_shapes(c)[14 + k].angle < #[trigger] face_shapes(
                c,
            )[14 + l].angle,
{
    lemma_face_layout(c);
    lemma_minor_positions();
    assert forall|k: int| 0 <= k < 48 implies {
        let dot = #[trigger] face_shapes(c)[14 + k];
        &&& dot.mark == DialMark::MinorTick
        &&& dot.color == 0x0000_00ff
        &&& dot.angle % 720_000 == 0
        &&& 0 < dot.angle / 720_000 < 60
        &&& (dot.angle / 720_000) % 5 != 0
    } by {
        let p = minor_position(k);
        assert(0 < p < 60);
        assert(face_shapes(c)[14 + k].angle == p * 720_000);
        assert((p * 720_000) % 720_000 == 0 && (p * 720_000) / 720_000 == p) by (nonlinear_arith)
            requires
                0 < p < 60,
        ;
    }
    assert forall|k: int, l: int| 0 <= k < l < 48 implies #[trigger] face_shapes(c)[14 + k].angle
        < #[trigger] face_shapes(c)[14 + l].angle by {
        assert(minor_position(k) < minor_position(l));
    }
}

/// A clock face, ready to be drawn at any size.
pub struct ClockFace {
    background_color: u32,
    shapes: Vec<DialShape>,
}

impl ClockFace {
    /// The packed color of the disc.
    pub closed spec fn background_color_spec(&self) -> u32 {
        self.background_color
    }

    /// The shapes, in painting order.
    pub closed spec fn shapes_spec(&self) -> Seq<DialShape> {
        self.shapes@
    }

    /// The face with a disc of `clock_background_color`, given as
    /// `[red, green, blue, alpha]`.
    pub fn new(clock_background_color: [u8; 4]) -> (face: ClockFace)
        ensures
            face.background_color_spec() as nat == packed_color(clock_background_color@),
            face.shapes_spec() == face_shapes(face.background_color_spec()),
    {
        let background_color: u32 = pack_rgba(clock_background_color);
        let mut face = ClockFace { background_color, shapes: Vec::new() };
        face.make_clock_base();
        face
    }

    /// The packed color of the disc.
    pub fn background_color(&self) -> (color: u32)
        ensures
            color == self.background_color_spec(),
    {
        self.background_color
    }

    /// The shapes, in painting order.
    pub fn shapes(&self) -> (shapes: &[DialShape])
        ensures
            shapes@ == self.shapes_spec(),
    {
        self.shapes.as_slice()
    }

    /// Lays the face out anew: whatever shapes it held before are dropped, so
    /// the result depends on the background color alone and a second call
    /// leaves the same shapes as the first.
    pub fn make_clock_base(&mut self)
        ensures
            final(self).background_color_spec() == old(self).background_color_spec(),
            final(self).shapes_spec() == face_shapes(old(self).background_color_spec()),
    {
        self.shapes.clear();
        self.draw_clock_background();
        self.draw_major_scale();
        self.draw_center_pin();
        self.draw_miner_scale();
        assert(self.shapes@ =~= face_shapes(self.background_color));
    }

    /// Adds the disc.
    fn draw_clock_background(&mut self)
        ensures
            final(self).background_color == old(self).background_color,
            final(self).shapes@ == old(self).shapes@.push(background_shape(old(self).background_color)),
    {
        let shape = DialShape { mark: DialMark::Background, angle: 0, color: self.background_color };
        self.shapes.push(shape);
    }

    /// Adds the twelve hour ticks.
    fn draw_major_scale(&mut self)
        ensures
            final(self).background_color == old(self).background_color,
            final(self).shapes@ == old(self).shapes@ + major_scale(),
    {
        let ghost start = self.shapes@;
        let mut i: u64 = 0;
        while i < 12
            invariant
                i <= 12,
                self.background_color == old(self).background_color,
                start == old(self).shapes@,
                self.shapes@ == start + major_scale().take(i as int),
            decreases 12 - i,
        {
            let shape = DialShape { mark: DialMark::MajorTick, angle: i * HOUR_STEP, color: OPAQUE_BLACK };
            self.shapes.push(shape);
            assert(major_scale().take(i + 1) =~= major_scale().take(i as int).push(shape));
            i = i + 1;
        }
        assert(major_scale().take(12) =~= major_scale());
    }

    /// Adds the pin.
    fn draw_center_pin(&mut self)
        ensures
            final(self).background_color == old(self).background_color,
            final(self).shapes@ == old(self).shapes@.push(center_pin_shape()),
    {
        let shape = DialShape { mark: DialMark::CenterPin, angle: 0, color: OPAQUE_BLACK };
        self.shapes.push(shape);
    }

    /// Adds a dot on every minute position that has no hour tick.
    fn draw_miner_scale(&mut self)
        ensures
            final(self).background_color == old(self).background_color,
            final(self).shapes@ == old(self).shapes@ + minor_scale(),
    {
        let ghost start = self.shapes@;
        let mut i: u64 = 0;
        while i < 60
            invariant
                i <= 60,
                self.background_color == old(self).background_color,
                start == old(self).shapes@,
                self.shapes@ == start + minor_scale().take(i - (i + 4) / 5),
            decreases 60 - i,
        {
            if i % 5 != 0 {
                let shape = DialShape { mark: DialMark::MinorTick, angle: i * MINUTE_STEP, color: OPAQUE_BLACK };
                self.shapes.push(shape);
                proof {
                    let k = i - (i + 4) / 5;
                    assert(k + k / 4 + 1 == i);
                    assert((i + 1) - (i + 1 + 4) / 5 == k + 1);
                    assert(minor_scale()[k] == shape);
                    assert(minor_scale().take(k + 1) =~= minor_scale().take(k).push(shape));
                }
            } else {
                assert((i + 1) - (i + 1 + 4) / 5 == i - (i + 4) / 5);
            }
            i = i + 1;
        }
        assert(minor_scale().take(48) =~= minor_scale());
    }
}

} // verus!
