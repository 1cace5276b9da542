//! What calls cost: a fixed part that was measured, and a part for each
//! database access, by the weights of the database that the runtime uses.

use vstd::prelude::*;

verus! {

/// The cost of a call: time on the reference hardware, in picoseconds, and
/// bytes of storage proof.
#[derive(Clone, Copy, Debug, PartialEq, Eq)]
pub struct Weight {
    pub ref_time: u64,
    pub proof_size: u64,
}

/// What one read and one write of the database cost, in picoseconds.
#[derive(Clone, Copy, Debug, PartialEq, Eq)]
pub struct RuntimeDbWeight {
    pub read: u64,
    pub write: u64,
}

/// `a + b`, held at `u64::MAX`.
pub open spec fn saturating_sum(a: u64, b: u64) -> u64 {
    if a + b > u64::MAX {
        u64::MAX
    } else {
        (a + b) as u64
    }
}

/// `a * b`, held at `u64::MAX`.
pub open spec fn saturating_product(a: u64, b: u64) -> u64 {
    if a * b > u64::MAX {
        u64::MAX
    } else {
        (a * b) as u64
    }
}

/// Adds two weights with `frame_support::weights::Weight::saturating_add`.
/// Taken on trust: each part of the result is the sum of the two parts,
/// held at `u64::MAX`.
#[verifier::external_body]
fn saturating_add(a: Weight, b: Weight) -> (sum: Weight)
    ensures
        sum.ref_time == saturating_sum(a.ref_time, b.ref_time),
        sum.proof_size == saturating_sum(a.proof_size, b.proof_size),
{
    let sum = frame_support::weights::Weight::from_parts(a.ref_time, a.proof_size).saturating_add(
        frame_support::weights::Weight::from_parts(b.ref_time, b.proof_size),
    );
    Weight { ref_time: sum.ref_time(), proof_size: sum.proof_size() }
}

/// The weight of `r` reads, by `frame_support::weights::RuntimeDbWeight::reads`.
/// Taken on trust: the time is `r` times that of one read, held at
/// `u64::MAX`, and no proof size is charged.
#[verifier::external_body]
fn reads(db: RuntimeDbWeight, r: u64) -> (weight: Weight)
    ensures
        weight.ref_time == saturating_product(db.read, r),
        weight.proof_size == 0,
{
    let weight = frame_support::weights::RuntimeDbWeight { read: db.read, write: db.write }.reads(r);
    Weight { ref_time: weight.ref_time(), proof_size: weight.proof_size() }
}

/// The weight of `w` writes, by `frame_support::weights::RuntimeDbWeight::writes`.
/// Taken on trust: the time is `w` times that of one write, held at
/// `u64::MAX`, and no proof size is charged.
#[verifier::external_body]
fn writes(db: RuntimeDbWeight, w: u64) -> (weight: Weight)
    ensures
        weight.ref_time == saturating_product(db.write, w),
        weight.proof_size == 0,
{
    let weight = frame_support::weights::RuntimeDbWeight { read: db.read, write: db.write }.writes(w);
    Weight { ref_time: weight.ref_time(), proof_size: weight.proof_size() }
}

/// The weights of RocksDB, from
/// `frame_support::weights::constants::RocksDbWeight::get`. Taken on trust:
/// a read costs 25 microseconds and a write 100.
#[verifier::external_body]
fn rocks_db_weight() -> (db: RuntimeDbWeight)
    ensures
        db.read == 25_000_000,
        db.write == 100_000_000,
{
    let db = frame_support::weights::constants::RocksDbWeight::get();
    RuntimeDbWeight { read: db.read, write: db.write }
}

impl Weight {
    /// The weight with these two parts.
    pub fn from_parts(ref_time: u64, proof_size: u64) -> (weight: Self)
        ensures
            weight == (Weight { ref_time, proof_size }),
    {
        Weight { ref_time, proof_size }
    }

    /// The time part.
    pub fn ref_time(&self) -> (r: u64)
        ensures
            r == self.ref_time,
    {
        self.ref_time
    }

    /// The proof size part.
    pub fn proof_size(&self) -> (r: u64)
        ensures
            r == self.proof_size,
    {
        self.proof_size
    }
}

/// The weights of the calls.
pub trait WeightInfo {
    /// The weight of a call that writes one value.
    fn do_something(&self) -> Weight;

    /// The weight of a call that reads one value and writes it back.
    fn cause_error(&self) -> Weight;
}

/// The weights as measured on the reference hardware, over the database
/// weights of the runtime.
pub struct SubstrateWeight {
    pub db_weight: RuntimeDbWeight,
}

impl SubstrateWeight {
    /// The measured weights over `db_weight`.
    pub fn new(db_weight: RuntimeDbWeight) -> (weights: Self)
        ensures
            weights.db_weight == db_weight,
    {
        SubstrateWeight { db_weight }
    }
}

impl WeightInfo for SubstrateWeight {
    /// 3 966 000 picoseconds and one write.
    fn do_something(&self) -> (weight: Weight)
        ensures
            weight.ref_time == saturating_sum(3_966_000, self.db_weight.write),
            weight.proof_size == 0,
    {
        saturating_add(Weight::from_parts(3_966_000, 0), writes(self.db_weight, 1))
    }

    /// 3 728 000 picoseconds, one read and one write; 1489 bytes of proof.
    fn cause_error(&self) -> (weight: Weight)
        ensures
            weight.ref_time == saturating_sum(
                saturating_sum(3_728_000, self.db_weight.read),
                self.db_weight.write,
            ),
            weight.proof_size == 1489,
    {
        saturating_add(
            saturating_add(Weight::from_parts(3_728_000, 1489), reads(self.db_weight, 1)),
            writes(self.db_weight, 1),
        )
    }
}

impl WeightInfo for () {
    /// 3 966 000 picoseconds and one write to RocksDB.
    fn do_something(&self) -> (weight: Weight)
        ensures
            weight == (Weight { ref_time: 103_966_000, proof_size: 0 }),
    {
        saturating_add(Weight::from_parts(3_966_000, 0), writes(rocks_db_weight(), 1))
    }

    /// 3 728 000 picoseconds, one read from RocksDB and one write to it;
    /// 1489 bytes of proof.
    fn cause_error(&self) -> (weight: Weight)
        ensures
            weight == (Weight { ref_time: 128_728_000, proof_size: 1489 }),
    {
        let db = rocks_db_weight();
        saturating_add(
            saturating_add(Weight::from_parts(3_728_000, 1489), reads(db, 1)),
            writes(db, 1),
        )
    }
}

} // verus!
