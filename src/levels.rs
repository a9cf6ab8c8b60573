use vstd::prelude::*;

verus! {

/// Upper end of the gain and volume controls.
pub const MAX_LEVEL: u8 = 100;

/// Pre-clip gain, 0 to 100 decibels. The linear factor is
/// `10^(value / 20)`.
#[derive(Clone, Copy, Debug, PartialEq, Eq, Structural)]
pub struct GainLevel {
    value: u8,
}

/// Post-clip volume, 0 to 100 percent. The linear factor is `value / 100`.
#[derive(Clone, Copy, Debug, PartialEq, Eq, Structural)]
pub struct VolumeLevel {
    value: u8,
}

impl View for GainLevel {
    type V = nat;

    closed spec fn view(&self) -> nat {
        self.value as nat
    }
}

impl View for VolumeLevel {
    type V = nat;

    closed spec fn view(&self) -> nat {
        self.value as nat
    }
}

impl GainLevel {
    #[verifier::type_invariant]
    spec fn in_range(&self) -> bool {
        self.value <= MAX_LEVEL
    }

    /// The level `value`, or `None` when it lies above 100.
    pub fn new(value: u8) -> (r: Option<GainLevel>)
        ensures
            r is Some <==> value <= 100,
            r matches Some(g) ==> g@ == value,
    {
        if value <= MAX_LEVEL {
            Some(GainLevel { value })
        } else {
            None
        }
    }

    /// The control's starting position.
    pub fn unity() -> (r: GainLevel)
        ensures
            r@ == 0,
    {
        GainLevel { value: 0 }
    }

    pub fn value(&self) -> (r: u8)
        ensures
            r == self@,
            r <= 100,
    {
        proof {
            use_type_invariant(self);
        }
        self.value
    }

    /// The linear factor as a power of ten, `10^(num / den)`.
    pub fn factor_exponent(&self) -> (r: (u8, u8))
        ensures
            r.0 == self@,
            r.1 == 20,
    {
        (self.value, 20)
    }
}

impl VolumeLevel {
    #[verifier::type_invariant]
    spec fn in_range(&self) -> bool {
        self.value <= MAX_LEVEL
    }

    /// The level `value`, or `None` when it lies above 100.
    pub fn new(value: u8) -> (r: Option<VolumeLevel>)
        ensures
            r is Some <==> value <= 100,
            r matches Some(v) ==> v@ == value,
    {
        if value <= MAX_LEVEL {
            Some(VolumeLevel { value })
        } else {
            None
        }
    }

    /// The control's starting position: half volume.
    pub fn half() -> (r: VolumeLevel)
        ensures
            r@ == 50,
    {
        VolumeLevel { value: 50 }
    }

    pub fn value(&self) -> (r: u8)
        ensures
            r == self@,
            r <= 100,
    {
        proof {
            use_type_invariant(self);
        }
        self.value
    }

    /// The linear factor as a fraction `num / den`, between 0 and 1.
    pub fn fraction(&self) -> (r: (u8, u8))
        ensures
            r.0 == self@,
            r.1 == 100,
            r.0 <= r.1,
    {
        proof {
            use_type_invariant(self);
        }
        (self.value, MAX_LEVEL)
    }
}

} // verus!
