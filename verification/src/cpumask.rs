//! A set of logical processors, one bit each.

use vstd::prelude::*;
use crate::error::{HvError, HvErrorNum, HvResult};

verus! {

/// Largest number of logical processors that a mask can name.
pub const NR_CPUS: usize = 512;

/// Number of bits in one word of a mask.
pub const BITS_PER_WORD: usize = 64;

/// Number of words in a mask.
pub const CPU_MASK_LEN: usize = 8;

/// A set of logical processors with numbers below [`NR_CPUS`].
#[derive(Debug)]
pub struct CpuMask([u64; 8]);

proof fn lemma_bit_ops(w: u64, b: u64, c: u64)
    by (bit_vector)
    requires
        b < 64,
        c < 64,
    ensures
        ((w | (1u64 << b)) >> c) & 1 == (if c == b {
            1u64
        } else {
            (w >> c) & 1
        }),
        ((w & !(1u64 << b)) >> c) & 1 == (if c == b {
            0u64
        } else {
            (w >> c) & 1
        }),
        (w & (1u64 << b) != 0) == ((w >> b) & 1 == 1),
        w & (1u64 << b) == 0 || w & (1u64 << b) == 1u64 << b,
        (0u64 >> c) & 1 == 0,
{
}

impl CpuMask {
    /// Whether processor `cpu` is in the set.
    pub closed spec fn spec_test(self, cpu: int) -> bool {
        (self.0@[cpu / 64] >> ((cpu % 64) as u64)) & 1 == 1
    }

    /// Adds processor `cpuid` to the set. No other processor is affected.
    pub fn set_cpu(&mut self, cpuid: usize)
        requires
            cpuid < NR_CPUS,
        ensures
            forall|j: int|
                0 <= j < NR_CPUS ==> #[trigger] final(self).spec_test(j) == (j == cpuid || old(
                    self,
                ).spec_test(j)),
    {
        let index = cpuid / BITS_PER_WORD;
        let shift: u64 = (cpuid % BITS_PER_WORD) as u64;
        let word: u64 = self.0[index];
        self.0[index] = word | (1u64 << shift);
        assert forall|j: int| 0 <= j < NR_CPUS implies #[trigger] self.spec_test(j) == (j == cpuid
            || old(self).spec_test(j)) by {
            if j / 64 == index {
                lemma_bit_ops(word, shift, (j % 64) as u64);
            }
        }
    }

    /// Removes processor `cpuid` from the set. No other processor is
    /// affected.
    pub fn clear_cpu(&mut self, cpuid: usize)
        requires
            cpuid < NR_CPUS,
        ensures
            forall|j: int|
                0 <= j < NR_CPUS ==> #[trigger] final(self).spec_test(j) == (j != cpuid && old(
                    self,
                ).spec_test(j)),
    {
        let index = cpuid / BITS_PER_WORD;
        let shift: u64 = (cpuid % BITS_PER_WORD) as u64;
        let word: u64 = self.0[index];
        self.0[index] = word & !(1u64 << shift);
        assert forall|j: int| 0 <= j < NR_CPUS implies #[trigger] self.spec_test(j) == (j != cpuid
            && old(self).spec_test(j)) by {
            if j / 64 == index {
                lemma_bit_ops(word, shift, (j % 64) as u64);
            }
        }
    }

    /// The bit of processor `cpuid` in its word of the mask: zero exactly
    /// if the processor is not in the set.
    pub fn test_cpu(&self, cpuid: usize) -> (r: u64)
        requires
            cpuid < NR_CPUS,
        ensures
            (r != 0) == self.spec_test(cpuid as int),
            r == 0 || r == 1u64 << ((cpuid % BITS_PER_WORD) as u64),
    {
        let index = cpuid / BITS_PER_WORD;
        let shift: u64 = (cpuid % BITS_PER_WORD) as u64;
        let word: u64 = self.0[index];
        proof {
            lemma_bit_ops(word, shift, shift);
        }
        word & (1u64 << shift)
    }

    /// Empties the set.
    pub fn clear(&mut self)
        ensures
            forall|j: int| 0 <= j < NR_CPUS ==> !#[trigger] final(self).spec_test(j),
    {
        self.0 = [0;8];
        assert forall|j: int| 0 <= j < NR_CPUS implies !#[trigger] self.spec_test(j) by {
            lemma_bit_ops(0, 0, (j % 64) as u64);
        }
    }
}

impl Default for CpuMask {
    fn default() -> (mask: CpuMask)
        ensures
            forall|j: int| 0 <= j < NR_CPUS ==> !#[trigger] mask.spec_test(j),
    {
        let mask = CpuMask([0;8]);
        assert forall|j: int| 0 <= j < NR_CPUS implies !#[trigger] mask.spec_test(j) by {
            lemma_bit_ops(0, 0, (j % 64) as u64);
        }
        mask
    }
}

/// Checks that a mask can name every processor of a system with `max_cpus`
/// processors.
pub fn check_max_cpus(max_cpus: u32) -> (r: HvResult<()>)
    ensures
        r == if max_cpus > NR_CPUS {
            Err::<(), HvError>(HvError { num: HvErrorNum::EINVAL, msg: None })
        } else {
            Ok::<(), HvError>(())
        },
{
    if max_cpus as usize > NR_CPUS {
        return Err(HvError::new(HvErrorNum::EINVAL));
    }
    Ok(())
}

} // verus!
