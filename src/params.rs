//! Sampling parameters, their valid ranges, and the store that tracks edits.
use vstd::prelude::*;

verus! {

/// Fixed-point unit of the sampling scale: a stored scale of `SCALE_ONE` is 1.0.
pub const SCALE_ONE: i64 = 1_000_000;

/// Fixed-point unit of lengths: one world unit is `LENGTH_ONE` thousandths.
pub const LENGTH_ONE: i64 = 1_000;

/// Largest accepted scale (0.01).
pub const SCALE_MAX: i64 = 10_000;

/// Largest accepted offset on either axis (1000 world units).
pub const OFFSET_MAX: i64 = 1_000_000;

/// Bounds of the sea level (from -1.0 to 1.0 in elevation units).
pub const SEA_LEVEL_MIN: i64 = -1_000_000;
pub const SEA_LEVEL_MAX: i64 = 1_000_000;

/// What a user can tune: how finely the noise is read, where the sampling
/// window sits, and where the water line lies.
///
/// `scale` is in millionths, the offsets in thousandths of a world unit, and
/// `sea_level` in millionths of an elevation unit.
#[derive(Clone, Copy, Debug, PartialEq, Eq, Structural)]
pub struct SamplingParameters {
    pub scale: i64,
    pub offset_x: i64,
    pub offset_y: i64,
    pub sea_level: i32,
}

/// The tunable parameters by name.
#[derive(Clone, Copy, Debug, PartialEq, Eq, Structural)]
pub enum ParameterName {
    Scale,
    OffsetX,
    OffsetY,
    SeaLevel,
}

/// The closed range `[min, max]` that a parameter may take.
#[derive(Clone, Copy, Debug, PartialEq, Eq, Structural)]
pub struct ParameterBounds {
    pub min: i64,
    pub max: i64,
}

pub open spec fn spec_min(name: ParameterName) -> int {
    match name {
        ParameterName::Scale => 0,
        ParameterName::OffsetX => 0,
        ParameterName::OffsetY => 0,
        ParameterName::SeaLevel => SEA_LEVEL_MIN as int,
    }
}

pub open spec fn spec_max(name: ParameterName) -> int {
    match name {
        ParameterName::Scale => SCALE_MAX as int,
        ParameterName::OffsetX => OFFSET_MAX as int,
        ParameterName::OffsetY => OFFSET_MAX as int,
        ParameterName::SeaLevel => SEA_LEVEL_MAX as int,
    }
}

/// `v` moved to the nearest point of `[lo, hi]`.
pub open spec fn clamp_to(v: int, lo: int, hi: int) -> int {
    if v < lo {
        lo
    } else if v > hi {
        hi
    } else {
        v
    }
}

impl ParameterName {
    /// The current value of this parameter in `p`.
    pub open spec fn value_in(self, p: SamplingParameters) -> int {
        match self {
            ParameterName::Scale => p.scale as int,
            ParameterName::OffsetX => p.offset_x as int,
            ParameterName::OffsetY => p.offset_y as int,
            ParameterName::SeaLevel => p.sea_level as int,
        }
    }

    /// `p` with this parameter replaced by `v`, the others untouched.
    pub open spec fn with_value(self, p: SamplingParameters, v: int) -> SamplingParameters {
        match self {
            ParameterName::Scale => SamplingParameters { scale: v as i64, ..p },
            ParameterName::OffsetX => SamplingParameters { offset_x: v as i64, ..p },
            ParameterName::OffsetY => SamplingParameters { offset_y: v as i64, ..p },
            ParameterName::SeaLevel => SamplingParameters { sea_level: v as i32, ..p },
        }
    }

    /// The valid range of this parameter, for bounding an interactive control.
    pub fn bounds(&self) -> (r: ParameterBounds)
        ensures
            r.min == spec_min(*self),
            r.max == spec_max(*self),
    {
        match self {
            ParameterName::Scale => ParameterBounds { min: 0, max: SCALE_MAX },
            ParameterName::OffsetX => ParameterBounds { min: 0, max: OFFSET_MAX },
            ParameterName::OffsetY => ParameterBounds { min: 0, max: OFFSET_MAX },
            ParameterName::SeaLevel => ParameterBounds { min: SEA_LEVEL_MIN, max: SEA_LEVEL_MAX },
        }
    }

    /// The caption shown beside this parameter's control.
    pub fn label(&self) -> (r: &'static str)
        ensures
            r@ == spec_label(*self),
    {
        match self {
            ParameterName::Scale => "Scale",
            ParameterName::OffsetX => "Offset X",
            ParameterName::OffsetY => "Offset Y",
            ParameterName::SeaLevel => "Sea Level",
        }
    }
}

pub open spec fn spec_label(name: ParameterName) -> Seq<char> {
    match name {
        ParameterName::Scale => "Scale"@,
        ParameterName::OffsetX => "Offset X"@,
        ParameterName::OffsetY => "Offset Y"@,
        ParameterName::SeaLevel => "Sea Level"@,
    }
}

impl SamplingParameters {
    /// Every parameter lies within its declared range.
    pub open spec fn valid(self) -> bool {
        &&& 0 <= self.scale <= SCALE_MAX
        &&& 0 <= self.offset_x <= OFFSET_MAX
        &&& 0 <= self.offset_y <= OFFSET_MAX
        &&& SEA_LEVEL_MIN <= self.sea_level <= SEA_LEVEL_MAX
    }

    /// The initial parameters: scale 0.01, no offset, sea level 0.5.
    pub open spec fn spec_default() -> SamplingParameters {
        SamplingParameters { scale: 10_000, offset_x: 0, offset_y: 0, sea_level: 500_000 }
    }

    /// The parameters a session starts with.
    pub fn default_parameters() -> (r: SamplingParameters)
        ensures
            r == Self::spec_default(),
            r.valid(),
    {
        SamplingParameters { scale: 10_000, offset_x: 0, offset_y: 0, sea_level: 500_000 }
    }

    /// `self` with `name` set to `value` clamped into its range.
    pub open spec fn spec_set(self, name: ParameterName, value: int) -> SamplingParameters {
        name.with_value(self, clamp_to(value, spec_min(name), spec_max(name)))
    }

    /// The value of one parameter.
    pub fn get(&self, name: ParameterName) -> (r: i64)
        ensures
            r == name.value_in(*self),
    {
        match name {
            ParameterName::Scale => self.scale,
            ParameterName::OffsetX => self.offset_x,
            ParameterName::OffsetY => self.offset_y,
            ParameterName::SeaLevel => self.sea_level as i64,
        }
    }

    /// Sets one parameter, moving an out-of-range value to the nearest bound.
    pub fn set(&mut self, name: ParameterName, value: i64)
        ensures
            *final(self) == old(self).spec_set(name, value as int),
            old(self).valid() ==> final(self).valid(),
    {
        let b = name.bounds();
        let v = if value < b.min {
            b.min
        } else if value > b.max {
            b.max
        } else {
            value
        };
        match name {
            ParameterName::Scale => self.scale = v,
            ParameterName::OffsetX => self.offset_x = v,
            ParameterName::OffsetY => self.offset_y = v,
            ParameterName::SeaLevel => self.sea_level = v as i32,
        }
    }
}

/// The current parameters and whether the grid drawn from them is stale.
pub struct ParameterStore {
    pub parameters: SamplingParameters,
    pub dirty: bool,
}

impl ParameterStore {
    /// A store holding the default parameters, marked dirty so that the first
    /// grid gets built.
    pub fn new() -> (r: ParameterStore)
        ensures
            r.parameters == SamplingParameters::spec_default(),
            r.dirty,
    {
        ParameterStore { parameters: SamplingParameters::default_parameters(), dirty: true }
    }

    /// Applies one edit: the value is clamped into range, and the store turns
    /// dirty when that changes the parameters; an edit that changes nothing
    /// leaves the flag as it was.
    pub fn set_parameter(&mut self, name: ParameterName, value: i64) -> (changed: bool)
        ensures
            final(self).parameters == old(self).parameters.spec_set(name, value as int),
            changed == (final(self).parameters != old(self).parameters),
            final(self).dirty == (old(self).dirty || changed),
            old(self).parameters.valid() ==> final(self).parameters.valid(),
    {
        let before = self.parameters;
        self.parameters.set(name, value);
        let changed = self.parameters != before;
        if changed {
            self.dirty = true;
        }
        changed
    }

    /// Reports whether a recompute is due and clears the flag.
    pub fn take_dirty(&mut self) -> (was_dirty: bool)
        ensures
            was_dirty == old(self).dirty,
            !final(self).dirty,
            final(self).parameters == old(self).parameters,
    {
        let was = self.dirty;
        self.dirty = false;
        was
    }
}

} // verus!
