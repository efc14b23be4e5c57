//! What each call of the registry weighs for the host that meters it.

use frame_support::weights::constants::RocksDbWeight;
use vstd::prelude::*;

verus! {

/// The weight of a call, in its two parts.
#[derive(Clone, Copy, Debug, PartialEq, Eq)]
pub struct Weight {
    /// Computation time on the host's reference hardware.
    pub ref_time: u64,
    /// Storage space taken in a proof of validity.
    pub proof_size: u64,
}

/// The weight of one read and of one write of the host's database.
#[derive(Clone, Copy, Debug, PartialEq, Eq)]
pub struct RuntimeDbWeight {
    pub read: u64,
    pub write: u64,
}

/// `a + b`, or the largest `u64` where the sum is beyond it.
pub open spec fn saturating_sum(a: u64, b: u64) -> u64 {
    if a + b > u64::MAX {
        u64::MAX
    } else {
        (a + b) as u64
    }
}

/// `a * b`, or the largest `u64` where the product is beyond it.
pub open spec fn saturating_product(a: u64, b: u64) -> u64 {
    if a * b > u64::MAX {
        u64::MAX
    } else {
        (a * b) as u64
    }
}

/// The time every call takes before it writes.
pub const BASE_REF_TIME: u64 = 9_000_000;

/// The weight of a call on a host whose database weighs `db_weight`: the
/// base time and one write, with no proof size.
pub open spec fn call_weight(db_weight: RuntimeDbWeight) -> Weight {
    Weight { ref_time: saturating_sum(BASE_REF_TIME, saturating_product(db_weight.write, 1)), proof_size: 0 }
}

impl Weight {
    /// The weight with the given parts.
    pub fn from_parts(ref_time: u64, proof_size: u64) -> (weight: Weight)
        ensures
            weight == (Weight { ref_time, proof_size }),
    {
        Weight { ref_time, proof_size }
    }

    /// The sum of two weights, part by part; a part that would overflow is
    /// the largest `u64`.
    pub fn saturating_add(self, rhs: Weight) -> (weight: Weight)
        ensures
            weight == (Weight {
                ref_time: saturating_sum(self.ref_time, rhs.ref_time),
                proof_size: saturating_sum(self.proof_size, rhs.proof_size),
            }),
    {
        Weight {
            ref_time: self.ref_time.saturating_add(rhs.ref_time),
            proof_size: self.proof_size.saturating_add(rhs.proof_size),
        }
    }
}

impl RuntimeDbWeight {
    /// The weight of `w` writes.
    pub fn writes(self, w: u64) -> (weight: Weight)
        ensures
            weight == (Weight { ref_time: saturating_product(self.write, w), proof_size: 0 }),
    {
        let ref_time = match self.write.checked_mul(w) {
            Some(product) => product,
            None => u64::MAX,
        };
        Weight::from_parts(ref_time, 0)
    }
}

/// `RocksDbWeight` of `frame_support`: a read weighs 25 000 000 and a write
/// 100 000 000.
#[verifier::external_body]
fn rocks_db_weight() -> (db_weight: RuntimeDbWeight)
    ensures
        db_weight.read == 25_000_000,
        db_weight.write == 100_000_000,
{
    let weight = RocksDbWeight::get();
    RuntimeDbWeight { read: weight.read, write: weight.write }
}

/// The weights of the four calls.
pub trait WeightInfo {
    fn create_kitty(&self) -> Weight;

    fn transfer(&self) -> Weight;

    fn set_price(&self) -> Weight;

    fn buy_kitty(&self) -> Weight;
}

/// The weights on a host whose database weighs `db_weight`.
pub struct SubstrateWeight {
    pub db_weight: RuntimeDbWeight,
}

impl WeightInfo for SubstrateWeight {
    fn create_kitty(&self) -> (weight: Weight)
        ensures
            weight == call_weight(self.db_weight),
    {
        Weight::from_parts(BASE_REF_TIME, 0).saturating_add(self.db_weight.writes(1))
    }

    fn transfer(&self) -> (weight: Weight)
        ensures
            weight == call_weight(self.db_weight),
    {
        Weight::from_parts(BASE_REF_TIME, 0).saturating_add(self.db_weight.writes(1))
    }

    fn set_price(&self) -> (weight: Weight)
        ensures
            weight == call_weight(self.db_weight),
    {
        Weight::from_parts(BASE_REF_TIME, 0).saturating_add(self.db_weight.writes(1))
    }

    fn buy_kitty(&self) -> (weight: Weight)
        ensures
            weight == call_weight(self.db_weight),
    {
        Weight::from_parts(BASE_REF_TIME, 0).saturating_add(self.db_weight.writes(1))
    }
}

/// The weights on a host with the default database.
impl WeightInfo for () {
    fn create_kitty(&self) -> (weight: Weight)
        ensures
            weight == (Weight { ref_time: 109_000_000, proof_size: 0 }),
    {
        Weight::from_parts(BASE_REF_TIME, 0).saturating_add(rocks_db_weight().writes(1))
    }

    fn transfer(&self) -> (weight: Weight)
        ensures
            weight == (Weight { ref_time: 109_000_000, proof_size: 0 }),
    {
        Weight::from_parts(BASE_REF_TIME, 0).saturating_add(rocks_db_weight().writes(1))
    }

    fn set_price(&self) -> (weight: Weight)
        ensures
            weight == (Weight { ref_time: 109_000_000, proof_size: 0 }),
    {
        Weight::from_parts(BASE_REF_TIME, 0).saturating_add(rocks_db_weight().writes(1))
    }

    fn buy_kitty(&self) -> (weight: Weight)
        ensures
            weight == (Weight { ref_time: 109_000_000, proof_size: 0 }),
    {
        Weight::from_parts(BASE_REF_TIME, 0).saturating_add(rocks_db_weight().writes(1))
    }
}

} // verus!
