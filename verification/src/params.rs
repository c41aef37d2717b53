//! Cost parameters of the Argon2id key derivation.

use vstd::prelude::*;
use argon2::Argon2;

verus! {

/// The hasher of `argon2`; only its parameters are read, through the four
/// functions below.
#[verifier::external_type_specification]
#[verifier::external_body]
pub struct ExArgon2<'key>(Argon2<'key>);

/// Why no parameters could be read from a hasher.
#[derive(Clone, Copy, Debug, PartialEq, Eq)]
pub enum ParamsError {
    /// The hasher has no output length set.
    MissingOutputLength,
}

/// Reads the memory cost of a hasher through `Argon2::params` and
/// `Params::m_cost`.
#[verifier::external_body]
fn hasher_m_cost(hasher: &Argon2<'_>) -> u32 {
    hasher.params().m_cost()
}

/// Reads the iterations of a hasher through `Argon2::params` and
/// `Params::t_cost`.
#[verifier::external_body]
fn hasher_t_cost(hasher: &Argon2<'_>) -> u32 {
    hasher.params().t_cost()
}

/// Reads the lanes of a hasher through `Argon2::params` and
/// `Params::p_cost`.
#[verifier::external_body]
fn hasher_p_cost(hasher: &Argon2<'_>) -> u32 {
    hasher.params().p_cost()
}

/// Reads the output length of a hasher, if it has one, through
/// `Argon2::params` and `Params::output_len`.
#[verifier::external_body]
fn hasher_output_len(hasher: &Argon2<'_>) -> Option<usize> {
    hasher.params().output_len()
}

/// Smallest memory cost per lane, in KiB.
pub const MEMORY_PER_LANE: u32 = 8;

/// Largest number of lanes that Argon2id takes.
pub const MAX_P_COST: u32 = 0xFF_FFFF;

/// Smallest output length: the cipher key is cut from the first 32 bytes.
pub const MIN_HASH_LENGTH: u64 = 32;

/// Largest output length that Argon2id takes.
pub const MAX_HASH_LENGTH: u64 = 0xFFFF_FFFF;

/// Argon2 parameters
#[derive(Debug)]
pub struct Argon2Params {
    /// Memory, in KiB.
    pub m_cost: u32,
    /// Iterations.
    pub t_cost: u32,
    /// Lanes.
    pub p_cost: u32,
    /// Bytes of raw output.
    pub hash_length: u64,
}

impl Clone for Argon2Params {
    fn clone(&self) -> (r: Self)
        ensures
            r == *self,
    {
        Argon2Params {
            m_cost: self.m_cost,
            t_cost: self.t_cost,
            p_cost: self.p_cost,
            hash_length: self.hash_length,
        }
    }
}

impl Argon2Params {
    /// The parameters that a key can be derived under: at least one
    /// iteration, between one and `MAX_P_COST` lanes, at least
    /// `MEMORY_PER_LANE` KiB for each lane, and an output of at least the 32
    /// bytes of a key.
    pub open spec fn well_formed(self) -> bool {
        &&& self.t_cost >= 1
        &&& 1 <= self.p_cost <= MAX_P_COST
        &&& self.m_cost >= MEMORY_PER_LANE * self.p_cost
        &&& MIN_HASH_LENGTH <= self.hash_length <= MAX_HASH_LENGTH
    }

    pub fn new(m_cost: u32, t_cost: u32, p_cost: u32, hash_length: u64) -> (r: Self)
        ensures
            r == (Argon2Params { m_cost, t_cost, p_cost, hash_length }),
    {
        Self { m_cost, t_cost, p_cost, hash_length }
    }

    /// The parameters that four readings of a hasher make: none without an
    /// output length.
    pub open spec fn of_readings(
        m_cost: u32,
        t_cost: u32,
        p_cost: u32,
        output_len: Option<usize>,
    ) -> Result<Argon2Params, ParamsError> {
        match output_len {
            None => Err(ParamsError::MissingOutputLength),
            Some(len) => Ok(Argon2Params { m_cost, t_cost, p_cost, hash_length: len as u64 }),
        }
    }

    /// Makes parameters of four readings of a hasher.
    pub fn from_readings(m_cost: u32, t_cost: u32, p_cost: u32, output_len: Option<usize>) -> (r:
        Result<Self, ParamsError>)
        ensures
            r == Self::of_readings(m_cost, t_cost, p_cost, output_len),
    {
        match output_len {
            None => Err(ParamsError::MissingOutputLength),
            Some(len) => Ok(Self { m_cost, t_cost, p_cost, hash_length: len as u64 }),
        }
    }

    /// Reads the parameters that a hasher was made with.
    pub fn from_argon2(argon2: Argon2) -> (r: Result<Self, ParamsError>)
        ensures
            exists|m_cost: u32, t_cost: u32, p_cost: u32, output_len: Option<usize>|
                r == #[trigger] Self::of_readings(m_cost, t_cost, p_cost, output_len),
    {
        let output_len = hasher_output_len(&argon2);
        let m_cost = hasher_m_cost(&argon2);
        let t_cost = hasher_t_cost(&argon2);
        let p_cost = hasher_p_cost(&argon2);
        Self::from_readings(m_cost, t_cost, p_cost, output_len)
    }

    /// Tells whether a key can be derived under these parameters.
    pub fn is_valid(&self) -> (r: bool)
        ensures
            r == self.well_formed(),
    {
        self.t_cost >= 1 && self.p_cost >= 1 && self.p_cost <= MAX_P_COST && self.m_cost
            / MEMORY_PER_LANE >= self.p_cost && self.hash_length >= MIN_HASH_LENGTH
            && self.hash_length <= MAX_HASH_LENGTH
    }

    pub fn very_fast() -> (r: Self)
        ensures
            r == (Argon2Params { m_cost: 24_000, t_cost: 3, p_cost: 2, hash_length: 64 }),
            r.well_formed(),
    {
        Self { m_cost: 24_000, t_cost: 3, p_cost: 2, hash_length: 64 }
    }

    pub fn fast() -> (r: Self)
        ensures
            r == (Argon2Params { m_cost: 64_000, t_cost: 4, p_cost: 2, hash_length: 64 }),
            r.well_formed(),
    {
        Self { m_cost: 64_000, t_cost: 4, p_cost: 2, hash_length: 64 }
    }

    pub fn balanced() -> (r: Self)
        ensures
            r == (Argon2Params { m_cost: 128_000, t_cost: 4, p_cost: 2, hash_length: 64 }),
            r.well_formed(),
    {
        Self { m_cost: 128_000, t_cost: 4, p_cost: 2, hash_length: 64 }
    }

    pub fn slow() -> (r: Self)
        ensures
            r == (Argon2Params { m_cost: 256_000, t_cost: 4, p_cost: 2, hash_length: 64 }),
            r.well_formed(),
    {
        Self { m_cost: 256_000, t_cost: 4, p_cost: 2, hash_length: 64 }
    }

    pub fn very_slow() -> (r: Self)
        ensures
            r == (Argon2Params { m_cost: 512_000, t_cost: 4, p_cost: 2, hash_length: 64 }),
            r.well_formed(),
    {
        Self { m_cost: 512_000, t_cost: 4, p_cost: 2, hash_length: 64 }
    }
}

} // verus!
