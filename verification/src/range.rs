//! The inclusive range of raw device levels that a step may land in.

use vstd::prelude::*;
use crate::error::StepError;

verus! {

/// The lowest level kept for a device whose highest raw level is `max`:
/// three thousandths of it, rounded down. Staying above zero matters because
/// level zero may switch the backlight off altogether.
pub open spec fn floor_of(max: int) -> int {
    (max * 3) / 1000
}

/// `value` brought into `[lo, hi]`.
pub open spec fn clamped(value: int, lo: int, hi: int) -> int {
    if value < lo {
        lo
    } else if value > hi {
        hi
    } else {
        value
    }
}

/// The level at which a curve output of `raw` range-local units lands in
/// `[min, max]`: `min` is added back and the sum is clipped into the range.
pub open spec fn landing(min: int, max: int, raw: int) -> int {
    clamped(min + raw, min, max)
}

/// Inclusive bounds over raw device units, with room between them.
#[derive(Clone, Copy, Debug, PartialEq, Eq, Structural)]
pub struct BrightnessRange {
    min: u32,
    max: u32,
}

impl BrightnessRange {
    /// The lowest level of the range.
    pub closed spec fn spec_min(self) -> int {
        self.min as int
    }

    /// The highest level of the range.
    pub closed spec fn spec_max(self) -> int {
        self.max as int
    }

    /// A range is usable only when its floor lies strictly below its top.
    pub open spec fn wf(self) -> bool {
        0 <= self.spec_min() < self.spec_max() <= u32::MAX
    }

    /// Whether `value` lies within the bounds, both included.
    pub open spec fn spec_contains(self, value: int) -> bool {
        self.spec_min() <= value <= self.spec_max()
    }

    /// The distance from the floor to the top.
    pub open spec fn spec_span(self) -> int {
        self.spec_max() - self.spec_min()
    }

    /// The range `[min, max]`, refused as degenerate unless `min < max`.
    pub fn new(min: u32, max: u32) -> (made: Result<BrightnessRange, StepError>)
        ensures
            made.is_err() <==> max <= min,
            made.is_err() ==> made == Err::<BrightnessRange, StepError>(StepError::DegenerateRange),
            made.is_ok() ==> made.unwrap().wf() && made.unwrap().spec_min() == min
                && made.unwrap().spec_max() == max,
    {
        if max <= min {
            Err(StepError::DegenerateRange)
        } else {
            Ok(BrightnessRange { min, max })
        }
    }

    /// The floor kept for a device that tops out at `max`.
    pub fn floor_for(max: u32) -> (floor: u32)
        ensures
            floor == floor_of(max as int),
            floor <= max,
    {
        let scaled: u64 = (max as u64) * 3 / 1000;
        scaled as u32
    }

    /// The range of a device that tops out at `max`, from its derived floor
    /// up to `max`. A device that reports no room above the floor is refused.
    pub fn for_device(max: u32) -> (made: Result<BrightnessRange, StepError>)
        ensures
            made.is_err() <==> max <= floor_of(max as int),
            made.is_err() <==> max == 0,
            made.is_err() ==> made == Err::<BrightnessRange, StepError>(StepError::DegenerateRange),
            made.is_ok() ==> made.unwrap().wf() && made.unwrap().spec_min() == floor_of(max as int)
                && made.unwrap().spec_max() == max,
    {
        let floor: u32 = Self::floor_for(max);
        Self::new(floor, max)
    }

    /// The lowest level of the range.
    pub fn min(&self) -> (level: u32)
        ensures
            level == self.spec_min(),
    {
        self.min
    }

    /// The highest level of the range.
    pub fn max(&self) -> (level: u32)
        ensures
            level == self.spec_max(),
    {
        self.max
    }

    /// The number of raw units between the floor and the top.
    pub fn span(&self) -> (width: u32)
        requires
            self.wf(),
        ensures
            width == self.spec_span(),
            width > 0,
    {
        self.max - self.min
    }

    /// Whether `value` lies within the range.
    pub fn contains(&self, value: u32) -> (inside: bool)
        ensures
            inside == self.spec_contains(value as int),
    {
        self.min <= value && value <= self.max
    }

    /// `value` clipped into the range.
    pub fn clamp(&self, value: u32) -> (level: u32)
        requires
            self.wf(),
        ensures
            level == clamped(value as int, self.spec_min(), self.spec_max()),
            self.spec_contains(level as int),
            self.spec_contains(value as int) ==> level == value,
    {
        if value < self.min {
            self.min
        } else if value > self.max {
            self.max
        } else {
            value
        }
    }

    /// The distance of `current` from the floor: the range-local coordinate
    /// that a curve works on. `None` exactly when `current` lies outside the
    /// range, where no such coordinate exists.
    pub fn offset_of(&self, current: u32) -> (offset: Option<u32>)
        requires
            self.wf(),
        ensures
            offset.is_some() <==> self.spec_contains(current as int),
            offset.is_some() ==> offset.unwrap() == current - self.spec_min()
                && offset.unwrap() <= self.spec_span(),
    {
        if self.contains(current) {
            Some(current - self.min)
        } else {
            None
        }
    }

    /// The level at which a curve output of `raw` range-local units lands:
    /// the floor is added back and the sum is clipped into the range, so the
    /// result never leaves it, whatever the curve produced. It depends on
    /// nothing but the range and `raw`.
    pub fn place(&self, raw: u32) -> (level: u32)
        requires
            self.wf(),
        ensures
            level == landing(self.spec_min(), self.spec_max(), raw as int),
            self.spec_contains(level as int),
            raw == 0 ==> level == self.spec_min(),
            raw >= self.spec_span() ==> level == self.spec_max(),
            raw <= self.spec_span() ==> level == self.spec_min() + raw,
    {
        let sum: u32 = if raw > u32::MAX - self.min {
            u32::MAX
        } else {
            self.min + raw
        };
        self.clamp(sum)
    }
}

} // verus!
