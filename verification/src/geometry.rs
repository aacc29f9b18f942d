//! Where everything stands on the face.
//!
//! The layout is exact. An angle is a whole number of units of which
//! [`TURN`] make a full turn, counted clockwise from twelve o'clock: the
//! coarsest unit in which every angle of the face is whole, since the hour
//! hand moves by one unit a minute and the minute hand by twelve. A length
//! is a whole number of units of which [`CANVAS`] make the side of the
//! canvas. Whoever draws the face turns units into radians and pixels.

use vstd::prelude::*;
use crate::time::Time;

verus! {

/// Angle units in a full turn.
pub const TURN: u16 = 720;

/// Angle units between two neighbouring hour marks: a twelfth of a turn.
pub const HOUR_STEP: u16 = 60;

/// Angle units between two neighbouring minute marks: a sixtieth of a turn.
pub const MINUTE_STEP: u16 = 12;

/// Angle units from twelve o'clock to three o'clock: a quarter of a turn.
pub const QUARTER_TURN: u16 = 180;

/// Hour marks, numerals and coloured segments on the face.
pub const HOUR_MARKS: u8 = 12;

/// Minute marks on the face.
pub const MINUTE_MARKS: u8 = 60;

/// Colours in the palette that the segments run through.
pub const PALETTE_SIZE: u8 = 6;

/// Length units in the side of the canvas.
pub const CANVAS: u16 = 10000;

/// Radius of the white disc behind everything: half the canvas.
pub const FACE_RADIUS: u16 = 5000;

/// Outer radius of the coloured ring, where all marks end.
pub const RING_OUTER_RADIUS: u16 = 4800;

/// Inner radius of the coloured ring, where the hour marks begin.
pub const RING_INNER_RADIUS: u16 = 4000;

/// Radius at which the minute marks begin.
pub const MINUTE_MARK_INNER_RADIUS: u16 = 4500;

/// Radius of the ring on which the numerals are centred.
pub const NUMERAL_RADIUS: u16 = 3625;

/// Length of the minute hand.
pub const MINUTE_HAND_LENGTH: u16 = 3250;

/// Length of the hour hand.
pub const HOUR_HAND_LENGTH: u16 = 1625;

/// Stroke width of the hour marks and of both hands.
pub const BOLD_STROKE: u16 = 200;

/// Stroke width of the minute marks.
pub const FINE_STROKE: u16 = 100;

/// Height of the numerals' font.
pub const NUMERAL_FONT_SIZE: u16 = 600;

/// The colours of the ring, in the order in which the segments take them.
#[derive(Clone, Copy, Debug, PartialEq, Eq, Structural)]
pub enum SegmentColor {
    Red,
    Orange,
    Yellow,
    Green,
    Blue,
    Purple,
}

/// One coloured wedge of the ring.
#[derive(Clone, Copy, Debug, PartialEq, Eq, Structural)]
pub struct Segment {
    /// Where the wedge begins.
    pub start_angle: u16,
    /// How far it reaches, clockwise.
    pub sweep: u16,
    pub color: SegmentColor,
}

/// One numeral of the face.
#[derive(Clone, Copy, Debug, PartialEq, Eq, Structural)]
pub struct Numeral {
    /// The number shown, `1..=12`.
    pub number: u8,
    /// Where on the numeral ring its centre lies.
    pub angle: u16,
}

/// Everything that is drawn for one time of day.
#[derive(Clone, Debug)]
pub struct ClockLayout {
    pub minute_hand_angle: u16,
    pub hour_hand_angle: u16,
    /// The 12 hour marks.
    pub major_ticks: Vec<u16>,
    /// The 60 minute marks.
    pub minor_ticks: Vec<u16>,
    /// The numerals 1 to 12.
    pub numerals: Vec<Numeral>,
    /// The 12 segments of the coloured ring.
    pub segments: Vec<Segment>,
}

/// The angle of the minute hand: `minutes / 60` of a turn.
pub open spec fn minute_hand_units(time: Time) -> int {
    time.minutes * MINUTE_STEP
}

/// The angle of the hour hand: `((hours mod 12) + minutes / 60) / 12` of a
/// turn. The hand moves on with every minute and not only on the hour.
pub open spec fn hour_hand_units(time: Time) -> int {
    (time.hours % 12) * HOUR_STEP + time.minutes
}

/// The angle of hour mark `n`: `n / 12` of a turn.
pub open spec fn major_tick_units(n: int) -> int {
    n * HOUR_STEP
}

/// The angle of minute mark `n`: `n / 60` of a turn.
pub open spec fn minor_tick_units(n: int) -> int {
    n * MINUTE_STEP
}

/// The `n`-th colour of the palette.
pub open spec fn palette(n: int) -> SegmentColor {
    if n == 0 {
        SegmentColor::Red
    } else if n == 1 {
        SegmentColor::Orange
    } else if n == 2 {
        SegmentColor::Yellow
    } else if n == 3 {
        SegmentColor::Green
    } else if n == 4 {
        SegmentColor::Blue
    } else {
        SegmentColor::Purple
    }
}

/// Segment `n` of the ring. Segment 0 begins at three o'clock, each one
/// covers a twelfth of a turn, and the colours run through the palette
/// twice.
pub open spec fn segment_at(n: int) -> Segment {
    Segment {
        start_angle: ((QUARTER_TURN + n * HOUR_STEP) % (TURN as int)) as u16,
        sweep: HOUR_STEP,
        color: palette(n % (PALETTE_SIZE as int)),
    }
}

/// Numeral `n`, counted from 0: the number `n + 1`, one hour step past hour
/// mark `n`. The 12 comes last and stands at the top.
pub open spec fn numeral_at(n: int) -> Numeral {
    Numeral {
        number: (n + 1) as u8,
        angle: ((n * HOUR_STEP + HOUR_STEP) % (TURN as int)) as u16,
    }
}

impl ClockLayout {
    /// This is the layout of the face at `time`.
    pub open spec fn shows(self, time: Time) -> bool {
        &&& self.minute_hand_angle == minute_hand_units(time)
        &&& self.hour_hand_angle == hour_hand_units(time)
        &&& self.major_ticks@ == Seq::new(12, |n: int| major_tick_units(n) as u16)
        &&& self.minor_ticks@ == Seq::new(60, |n: int| minor_tick_units(n) as u16)
        &&& self.numerals@ == Seq::new(12, |n: int| numeral_at(n))
        &&& self.segments@ == Seq::new(12, |n: int| segment_at(n))
    }

    /// Every angle of the layout is less than a full turn.
    pub open spec fn within_a_turn(self) -> bool {
        &&& self.minute_hand_angle < TURN
        &&& self.hour_hand_angle < TURN
        &&& forall|i: int| 0 <= i < self.major_ticks@.len() ==> #[trigger] self.major_ticks@[i] < TURN
        &&& forall|i: int| 0 <= i < self.minor_ticks@.len() ==> #[trigger] self.minor_ticks@[i] < TURN
        &&& forall|i: int| 0 <= i < self.numerals@.len() ==> (#[trigger] self.numerals@[i]).angle < TURN
        &&& forall|i: int|
            0 <= i < self.segments@.len() ==> (#[trigger] self.segments@[i]).start_angle < TURN
    }
}

/// The angle of the minute hand.
pub fn minute_hand_angle(time: &Time) -> (angle: u16)
    ensures
        angle == minute_hand_units(*time),
        time.wf() ==> angle < TURN,
{
    time.minutes as u16 * MINUTE_STEP
}

/// The angle of the hour hand.
pub fn hour_hand_angle(time: &Time) -> (angle: u16)
    ensures
        angle == hour_hand_units(*time),
        time.wf() ==> angle < TURN,
{
    (time.hours % 12) as u16 * HOUR_STEP + time.minutes as u16
}

/// The angle of hour mark `n`.
pub fn major_tick_angle(n: u8) -> (angle: u16)
    requires
        n < HOUR_MARKS,
    ensures
        angle == major_tick_units(n as int),
        angle < TURN,
{
    n as u16 * HOUR_STEP
}

/// The angle of minute mark `n`.
pub fn minor_tick_angle(n: u8) -> (angle: u16)
    requires
        n < MINUTE_MARKS,
    ensures
        angle == minor_tick_units(n as int),
        angle < TURN,
{
    n as u16 * MINUTE_STEP
}

/// The colour of segment `n`.
pub fn segment_color(n: u8) -> (color: SegmentColor)
    ensures
        color == palette(n as int % (PALETTE_SIZE as int)),
{
    match n % PALETTE_SIZE {
        0 => SegmentColor::Red,
        1 => SegmentColor::Orange,
        2 => SegmentColor::Yellow,
        3 => SegmentColor::Green,
        4 => SegmentColor::Blue,
        _ => SegmentColor::Purple,
    }
}

/// Segment `n` of the coloured ring.
pub fn segment(n: u8) -> (wedge: Segment)
    requires
        n < HOUR_MARKS,
    ensures
        wedge == segment_at(n as int),
        wedge.start_angle < TURN,
{
    Segment {
        start_angle: (QUARTER_TURN + n as u16 * HOUR_STEP) % TURN,
        sweep: HOUR_STEP,
        color: segment_color(n),
    }
}

/// Numeral `n`, counted from 0.
pub fn numeral(n: u8) -> (label: Numeral)
    requires
        n < HOUR_MARKS,
    ensures
        label == numeral_at(n as int),
        1 <= label.number <= 12,
        label.angle < TURN,
{
    Numeral { number: n + 1, angle: (n as u16 * HOUR_STEP + HOUR_STEP) % TURN }
}

/// Lays out the face for `time`.
pub fn layout(time: &Time) -> (face: ClockLayout)
    ensures
        face.shows(*time),
        time.wf() ==> face.within_a_turn(),
{
    let mut major_ticks: Vec<u16> = Vec::new();
    let mut numerals: Vec<Numeral> = Vec::new();
    let mut segments: Vec<Segment> = Vec::new();
    let mut n: u8 = 0;
    while n < HOUR_MARKS
        invariant
            n <= HOUR_MARKS,
            major_ticks@ == Seq::new(n as nat, |i: int| major_tick_units(i) as u16),
            numerals@ == Seq::new(n as nat, |i: int| numeral_at(i)),
            segments@ == Seq::new(n as nat, |i: int| segment_at(i)),
        decreases HOUR_MARKS - n,
    {
        major_ticks.push(major_tick_angle(n));
        numerals.push(numeral(n));
        segments.push(segment(n));
        n += 1;
    }
    let mut minor_ticks: Vec<u16> = Vec::new();
    let mut m: u8 = 0;
    while m < MINUTE_MARKS
        invariant
            m <= MINUTE_MARKS,
            minor_ticks@ == Seq::new(m as nat, |i: int| minor_tick_units(i) as u16),
        decreases MINUTE_MARKS - m,
    {
        minor_ticks.push(minor_tick_angle(m));
        m += 1;
    }
    ClockLayout {
        minute_hand_angle: minute_hand_angle(time),
        hour_hand_angle: hour_hand_angle(time),
        major_ticks,
        minor_ticks,
        numerals,
        segments,
    }
}

/// The palette has six colours and the ring twelve segments, so each
/// segment has the colour of the one opposite.
pub proof fn lemma_opposite_segments_share_a_color(n: int)
    requires
        0 <= n < 6,
    ensures
        segment_at(n).color == segment_at(n + 6).color,
{
}

/// The hands follow the minute of the day: the hour hand moves one unit a
/// minute and goes round twice a day, the minute hand moves
/// [`MINUTE_STEP`] units a minute and goes round once an hour.
pub proof fn lemma_hands_follow_minute_of_day(time: Time)
    requires
        time.wf(),
    ensures
        hour_hand_units(time) == time.minute_of_day() % 720,
        minute_hand_units(time) == (time.minute_of_day() % 60) * 12,
{
}

/// On the hour, the hour hand points at the hour's mark; half an hour
/// later it stands exactly half way to the next one; and it never reaches
/// the next one before the hour is over.
pub proof fn lemma_hour_hand_between_marks(time: Time)
    requires
        time.wf(),
    ensures
        ({
            let mark = major_tick_units(time.hours as int % 12);
            let next = major_tick_units(time.hours as int % 12 + 1);
            &&& time.minutes == 0 ==> hour_hand_units(time) == mark
            &&& time.minutes == 30 ==> 2 * hour_hand_units(time) == mark + next
            &&& mark <= hour_hand_units(time) < next
        }),
{
}

} // verus!
