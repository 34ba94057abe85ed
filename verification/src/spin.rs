//! The two-valued spin and its projections onto `bool` and onto a signed
//! weight.

use vstd::prelude::*;
use vstd::std_specs::convert::FromSpecImpl;

verus! {

/// One lattice site's state.
#[derive(Debug, Clone, Copy, PartialEq, Eq, Structural)]
pub enum Spin {
    Up,
    Down,
}

impl Spin {
    /// The spin that a stored bit stands for: a set bit is `Up`.
    pub open spec fn of_bit(bit: bool) -> Spin {
        if bit {
            Spin::Up
        } else {
            Spin::Down
        }
    }

    /// The bit that stores this spin.
    pub open spec fn bit(self) -> bool {
        self == Spin::Up
    }

    /// The signed weight of this spin in sums: `+1` for `Up`, `-1` for `Down`.
    pub open spec fn weight(self) -> int {
        if self == Spin::Up {
            1
        } else {
            -1
        }
    }

    /// Projects the spin onto the bit that stores it.
    pub fn as_bool(self) -> (bit: bool)
        ensures
            bit == self.bit(),
    {
        match self {
            Spin::Up => true,
            Spin::Down => false,
        }
    }

    /// Projects the spin onto its signed weight.
    pub fn as_weight(self) -> (weight: i32)
        ensures
            weight == self.weight(),
    {
        match self {
            Spin::Up => 1,
            Spin::Down => -1,
        }
    }
}

impl From<bool> for Spin {
    /// Reads a stored bit as a spin.
    fn from(bool_repr: bool) -> (spin: Spin) {
        if bool_repr {
            Spin::Up
        } else {
            Spin::Down
        }
    }
}

impl FromSpecImpl<bool> for Spin {
    open spec fn obeys_from_spec() -> bool {
        true
    }

    open spec fn from_spec(bool_repr: bool) -> Spin {
        Spin::of_bit(bool_repr)
    }
}

impl From<&bool> for Spin {
    /// Reads a borrowed stored bit as a spin.
    fn from(bool_repr: &bool) -> (spin: Spin) {
        if *bool_repr {
            Spin::Up
        } else {
            Spin::Down
        }
    }
}

impl FromSpecImpl<&bool> for Spin {
    open spec fn obeys_from_spec() -> bool {
        true
    }

    open spec fn from_spec(bool_repr: &bool) -> Spin {
        Spin::of_bit(*bool_repr)
    }
}

impl From<Spin> for bool {
    /// The bit that stores the spin.
    fn from(spin: Spin) -> (bit: bool) {
        match spin {
            Spin::Up => true,
            Spin::Down => false,
        }
    }
}

impl FromSpecImpl<Spin> for bool {
    open spec fn obeys_from_spec() -> bool {
        true
    }

    open spec fn from_spec(spin: Spin) -> bool {
        spin.bit()
    }
}

impl From<Spin> for i32 {
    /// The signed weight of the spin.
    fn from(spin: Spin) -> (weight: i32) {
        match spin {
            Spin::Up => 1,
            Spin::Down => -1,
        }
    }
}

impl FromSpecImpl<Spin> for i32 {
    open spec fn obeys_from_spec() -> bool {
        true
    }

    open spec fn from_spec(spin: Spin) -> i32 {
        if spin == Spin::Up {
            1i32
        } else {
            -1i32
        }
    }
}

impl AsRef<Spin> for bool {
    /// Borrows the spin that a stored bit stands for.
    fn as_ref(&self) -> (spin: &Spin)
        ensures
            *spin == Spin::of_bit(*self),
    {
        if *self {
            &Spin::Up
        } else {
            &Spin::Down
        }
    }
}

} // verus!
