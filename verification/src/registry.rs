//! The generator registry: the fixed public generator pair of each pool and
//! the cofactor relating the two pools' bases. The native pool commits over
//! `(V, R)`; the secondary pool's value basis is `V` scaled by the cofactor,
//! and both pools blind over the shared binding basepoint `R`, so one binding
//! signature can cover commitments from both pools.
use vstd::prelude::*;

use crate::algebra::PointModel;
use crate::curve::{native_rand_gen, native_value_gen, point_mul, scalar_from_u64, Point};

verus! {

/// The fixed integer relating the two pools' value-generator bases.
pub const COFACTOR: u64 = 8;

/// Which of the two pools a commitment belongs to.
#[derive(Clone, Copy, Debug, PartialEq, Eq, Structural)]
pub enum Pool {
    Native,
    Secondary,
}

/// The public generator points used by each pool, injected into the
/// commitment engine and the signer instead of being hard-coded there.
pub struct GeneratorRegistry {
    pub native_value: Point,
    pub native_rand: Point,
    pub secondary_value: Point,
    pub secondary_rand: Point,
    pub cofactor: u64,
}

impl GeneratorRegistry {
    /// A well-formed registry: the native basis is `(V, R)`, the secondary
    /// value basis is `V` times the cofactor, and both pools share the
    /// randomness basis `R`.
    pub open spec fn wf(&self) -> bool {
        &&& self.native_value@ == (PointModel { v: 1, r: 0 })
        &&& self.native_rand@ == (PointModel { v: 0, r: 1 })
        &&& self.secondary_value@ == (PointModel { v: COFACTOR as nat, r: 0 })
        &&& self.secondary_rand@ == (PointModel { v: 0, r: 1 })
        &&& self.cofactor == COFACTOR
    }

    /// The model of a pool's value generator.
    pub open spec fn value_base(&self, pool: Pool) -> PointModel {
        match pool {
            Pool::Native => self.native_value@,
            Pool::Secondary => self.secondary_value@,
        }
    }

    /// The model of a pool's randomness generator.
    pub open spec fn rand_base(&self, pool: Pool) -> PointModel {
        match pool {
            Pool::Native => self.native_rand@,
            Pool::Secondary => self.secondary_rand@,
        }
    }

    /// Builds the registry from the fixed curve constants; the secondary
    /// value basis is computed, not assumed, as the cofactor multiple.
    pub fn new() -> (reg: GeneratorRegistry)
        ensures
            reg.wf(),
    {
        let v = native_value_gen();
        let cof = scalar_from_u64(COFACTOR);
        let sv = point_mul(&v, &cof);
        let reg = GeneratorRegistry {
            native_value: v,
            native_rand: native_rand_gen(),
            secondary_value: sv,
            secondary_rand: native_rand_gen(),
            cofactor: COFACTOR,
        };
        proof {
            crate::algebra::lemma_fr_order_large();
            vstd::arithmetic::div_mod::lemma_small_mod(COFACTOR as nat, crate::algebra::fr_order());
            vstd::arithmetic::div_mod::lemma_small_mod(0nat, crate::algebra::fr_order());
        }
        reg
    }

    /// The value generator of a pool.
    pub fn value_gen(&self, pool: Pool) -> (p: &Point)
        ensures
            p@ == self.value_base(pool),
    {
        match pool {
            Pool::Native => &self.native_value,
            Pool::Secondary => &self.secondary_value,
        }
    }

    /// The randomness generator of a pool.
    pub fn rand_gen(&self, pool: Pool) -> (p: &Point)
        ensures
            p@ == self.rand_base(pool),
    {
        match pool {
            Pool::Native => &self.native_rand,
            Pool::Secondary => &self.secondary_rand,
        }
    }
}

} // verus!
