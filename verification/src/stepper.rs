//! One brightness adjustment: what is handed to the curve, and where the
//! curve's answer lands.

use vstd::prelude::*;
use crate::direction::Direction;
use crate::error::StepError;
use crate::range::{clamped, floor_of, landing, BrightnessRange};
use crate::reading::{level_of_text, parse_level};

verus! {

/// What a curve needs to advance one step: the current level in range-local
/// units, the width of the range in the same units, and the signed unit of
/// the step.
#[derive(Clone, Copy, Debug, PartialEq, Eq, Structural)]
pub struct CurveInput {
    pub offset: u32,
    pub span: u32,
    pub sign: i32,
}

/// The range of a device and the level it is at.
#[derive(Clone, Copy, Debug, PartialEq, Eq, Structural)]
pub struct Configuration {
    range: BrightnessRange,
    current: u32,
}

impl Configuration {
    /// The range that steps stay in.
    pub closed spec fn spec_range(self) -> BrightnessRange {
        self.range
    }

    /// The level the device is at.
    pub closed spec fn spec_current(self) -> int {
        self.current as int
    }

    /// A configuration is usable when its range is and its level lies in it.
    pub open spec fn wf(self) -> bool {
        self.spec_range().wf() && self.spec_range().spec_contains(self.spec_current())
    }

    /// The configuration of a device that reports level `current` and tops
    /// out at `max`, with the floor derived from `max`. A reported level
    /// outside the range, such as zero for a backlight switched off, is
    /// clipped into it. Only a device with no room above its floor is
    /// refused.
    pub fn new(current: u32, max: u32) -> (made: Result<Configuration, StepError>)
        ensures
            made.is_err() <==> max <= floor_of(max as int),
            made.is_err() <==> max == 0,
            made.is_err() ==> made == Err::<Configuration, StepError>(StepError::DegenerateRange),
            made.is_ok() ==> {
                &&& made.unwrap().wf()
                &&& made.unwrap().spec_range().spec_min() == floor_of(max as int)
                &&& made.unwrap().spec_range().spec_max() == max
                &&& made.unwrap().spec_current() == clamped(
                    current as int,
                    floor_of(max as int),
                    max as int,
                )
            },
    {
        match BrightnessRange::for_device(max) {
            Ok(range) => Ok(Configuration::with_range(current, range)),
            Err(e) => Err(e),
        }
    }

    /// The configuration of a device from the two texts it reports: its
    /// level and its highest level, in that order. A text that is no number
    /// is a failed reading, whichever of the two it is; a device with no
    /// room above its floor is refused after both were read; every other
    /// pair of readings gives the configuration that `new` makes of them.
    pub fn from_readings(level_text: &[u8], max_text: &[u8]) -> (made: Result<
        Configuration,
        StepError,
    >)
        ensures
            match (level_of_text(level_text@), level_of_text(max_text@)) {
                (Some(level), Some(max)) => if max == 0 {
                    made == Err::<Configuration, StepError>(StepError::DegenerateRange)
                } else {
                    &&& made.is_ok()
                    &&& made.unwrap().wf()
                    &&& made.unwrap().spec_range().spec_min() == floor_of(max as int)
                    &&& made.unwrap().spec_range().spec_max() == max
                    &&& made.unwrap().spec_current() == clamped(
                        level as int,
                        floor_of(max as int),
                        max as int,
                    )
                },
                _ => made == Err::<Configuration, StepError>(StepError::SourceRead),
            },
    {
        let current: u32 = match parse_level(level_text) {
            Ok(level) => level,
            Err(e) => { return Err(e); },
        };
        let max: u32 = match parse_level(max_text) {
            Ok(level) => level,
            Err(e) => { return Err(e); },
        };
        Configuration::new(current, max)
    }

    /// The configuration of a device within `range` that reports level
    /// `current`, clipped into the range where it lies outside.
    pub fn with_range(current: u32, range: BrightnessRange) -> (made: Configuration)
        requires
            range.wf(),
        ensures
            made.wf(),
            made.spec_range() == range,
            made.spec_current() == clamped(current as int, range.spec_min(), range.spec_max()),
    {
        Configuration { range, current: range.clamp(current) }
    }

    /// The range that steps stay in.
    pub fn range(&self) -> (range: BrightnessRange)
        ensures
            range == self.spec_range(),
    {
        self.range
    }

    /// The level the device is at.
    pub fn current(&self) -> (level: u32)
        ensures
            level == self.spec_current(),
    {
        self.current
    }

    /// The lowest level a step may land on.
    pub fn min(&self) -> (level: u32)
        ensures
            level == self.spec_range().spec_min(),
    {
        self.range.min()
    }

    /// The highest level a step may land on.
    pub fn max(&self) -> (level: u32)
        ensures
            level == self.spec_range().spec_max(),
    {
        self.range.max()
    }

    /// The curve input for a step in `direction` from this configuration.
    pub open spec fn spec_curve_input(self, direction: Direction) -> CurveInput {
        CurveInput {
            offset: (self.spec_current() - self.spec_range().spec_min()) as u32,
            span: self.spec_range().spec_span() as u32,
            sign: direction.spec_sign() as i32,
        }
    }

    /// What to hand to the curve for one step in `direction`: how far the
    /// level stands above the floor, how wide the range is, and which way
    /// the step goes. The offset over the span is a fraction between zero
    /// and one.
    pub fn curve_input(&self, direction: Direction) -> (input: CurveInput)
        requires
            self.wf(),
        ensures
            input == self.spec_curve_input(direction),
            input.offset == self.spec_current() - self.spec_range().spec_min(),
            input.span == self.spec_range().spec_span(),
            input.offset <= input.span,
            input.span > 0,
            input.sign == direction.spec_sign(),
    {
        CurveInput {
            offset: self.current - self.range.min(),
            span: self.range.span(),
            sign: direction.sign(),
        }
    }

    /// Takes the curve's answer, `raw` range-local units, as the new level:
    /// the floor is added back and the sum clipped into the range, so the
    /// new level lies in the range whatever the curve answered. It moves
    /// with the answer: one at or above the old offset does not lower the
    /// level, one at or below it does not raise it. The range itself never
    /// changes.
    pub fn land(&mut self, raw: u32)
        requires
            old(self).wf(),
        ensures
            final(self).wf(),
            final(self).spec_range() == old(self).spec_range(),
            final(self).spec_current() == landing(
                old(self).spec_range().spec_min(),
                old(self).spec_range().spec_max(),
                raw as int,
            ),
            raw == 0 ==> final(self).spec_current() == old(self).spec_range().spec_min(),
            raw >= old(self).spec_range().spec_span() ==> final(self).spec_current() == old(
                self,
            ).spec_range().spec_max(),
            raw >= old(self).spec_current() - old(self).spec_range().spec_min()
                ==> final(self).spec_current() >= old(self).spec_current(),
            raw <= old(self).spec_current() - old(self).spec_range().spec_min()
                ==> final(self).spec_current() <= old(self).spec_current(),
    {
        self.current = self.range.place(raw);
    }

    /// One whole step in `direction` along `curve`: the curve is asked once,
    /// for this configuration's curve input, and its answer, with the floor
    /// added back and clipped into the range, becomes the new level, which
    /// is returned. The clip runs whatever the direction and the curve.
    pub fn step<F: Fn(CurveInput) -> u32>(&mut self, direction: Direction, curve: F) -> (level:
        u32)
        requires
            old(self).wf(),
            call_requires(curve, (old(self).spec_curve_input(direction),)),
        ensures
            final(self).wf(),
            final(self).spec_range() == old(self).spec_range(),
            level == final(self).spec_current(),
            exists|raw: u32|
                {
                    &&& call_ensures(curve, (old(self).spec_curve_input(direction),), raw)
                    &&& final(self).spec_current() == landing(
                        old(self).spec_range().spec_min(),
                        old(self).spec_range().spec_max(),
                        raw as int,
                    )
                },
    {
        let input: CurveInput = self.curve_input(direction);
        let raw: u32 = curve(input);
        self.land(raw);
        self.current
    }
}

/// Wherever the curve's answer falls, the landing level stays within the
/// range, also where the range has shrunk to a single level.
pub proof fn lemma_landing_in_range(min: int, max: int, raw: int)
    requires
        min <= max,
        0 <= raw,
    ensures
        min <= landing(min, max, raw) <= max,
{
}

/// At the rails a step saturates: an answer of zero lands on the floor, and
/// an answer of the whole width or more lands on the top.
pub proof fn lemma_landing_saturates(min: int, max: int, raw: int)
    requires
        min <= max,
    ensures
        landing(min, max, 0) == min,
        raw >= max - min ==> landing(min, max, raw) == max,
{
}

/// The landing level moves with the curve's answer and never against it: an
/// answer at or above the current offset does not lower the level, one at or
/// below it does not raise it, and the offset itself lands where it started.
pub proof fn lemma_landing_follows_curve(min: int, max: int, current: int, raw: int)
    requires
        min <= current <= max,
        0 <= raw,
    ensures
        raw >= current - min ==> landing(min, max, raw) >= current,
        raw <= current - min ==> landing(min, max, raw) <= current,
        raw == current - min ==> landing(min, max, raw) == current,
{
}

/// A larger answer from the curve never lands lower.
pub proof fn lemma_landing_monotone(min: int, max: int, lower: int, higher: int)
    requires
        min <= max,
        lower <= higher,
    ensures
        landing(min, max, lower) <= landing(min, max, higher),
{
}

} // verus!
