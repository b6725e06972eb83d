//! Segment selectors and the descriptors they select.
//!
//! A descriptor table is handed over as a slice of 64-bit words and every
//! access to it is bounds-checked, so a snapshot never depends on memory
//! that was not read.

use vstd::prelude::*;
use crate::error::{HvError, HvErrorNum, HvResult};

verus! {

/// A pointer to a descriptor table, in the form that `lgdt` and `lidt` take.
#[derive(Clone, Copy, Debug, PartialEq, Eq, Structural)]
pub struct DescriptorTablePointer {
    /// Size of the table in bytes, minus one.
    pub limit: u16,
    /// Address of the first descriptor.
    pub base: u64,
}

/// A segment register together with what its descriptor says.
#[derive(Clone, Copy, Debug, PartialEq, Eq, Structural)]
pub struct Segment {
    pub selector: u16,
    pub base: u64,
    pub limit: u32,
    pub access_rights: u32,
}

/// Access rights of a segment that cannot be used.
pub const ACCESS_UNUSABLE: u32 = 0x1_0000;

/// The present flag of a descriptor.
pub const DESC_PRESENT: u64 = 0x8000_0000_0000;

/// Set in code and data descriptors, clear in system descriptors.
pub const DESC_USER_SEGMENT: u64 = 0x1000_0000_0000;

/// The limit of the descriptor counts 4 KiB pages.
pub const DESC_GRANULARITY: u64 = 0x80_0000_0000_0000;

/// Set in the descriptor of a task-state segment that is in use.
pub const DESC_TSS_BUSY: u64 = 0x200_0000_0000;

/// The index of the descriptor that `selector` selects: the selector
/// without its privilege level and table indicator.
pub open spec fn spec_selector_index(selector: u16) -> u16 {
    selector >> 3
}

/// The index that `x86::segmentation::SegmentSelector::index` returns for
/// the selector with the given raw bits: the bits shifted right by three.
#[verifier::external_body]
fn selector_index(selector: u16) -> (index: u16)
    ensures
        index == spec_selector_index(selector),
{
    x86::segmentation::SegmentSelector::from_raw(selector).index()
}

/// The position in a descriptor table of the descriptor that `selector`
/// selects.
pub fn descriptor_index(selector: u16) -> (index: usize)
    ensures
        index == spec_selector_index(selector),
{
    selector_index(selector) as usize
}

/// The first word of a task-state descriptor, marked as not in use, as it
/// must be when the task register is loaded from it.
pub fn tss_available(low: u64) -> (r: u64)
    ensures
        r == low & !DESC_TSS_BUSY,
{
    low & !DESC_TSS_BUSY
}

impl DescriptorTablePointer {
    /// Number of 64-bit words in the table that the pointer describes.
    pub open spec fn spec_entry_count(self) -> int {
        (self.limit + 1) / 8
    }

    /// Number of 64-bit words in the table that the pointer describes.
    pub fn entry_count(&self) -> (r: usize)
        ensures
            r == self.spec_entry_count(),
    {
        (self.limit as usize + 1) / 8
    }
}

/// Writes the two words of a task-state descriptor into the slots of
/// `table` that `selector` selects, with the busy flag cleared so that the
/// task register can be loaded from it. A descriptor that does not lie
/// within the table is rejected and the table stays as it was.
pub fn install_tss(table: &mut [u64], selector: u16, low: u64, high: u64) -> (r: HvResult<()>)
    ensures
        r is Ok <==> spec_selector_index(selector) + 1 < old(table)@.len(),
        r is Ok ==> final(table)@ == old(table)@.update(
            spec_selector_index(selector) as int,
            low & !DESC_TSS_BUSY,
        ).update(spec_selector_index(selector) + 1, high),
        r is Err ==> final(table)@ == old(table)@,
        r is Err ==> r == Err::<(), HvError>(HvError { num: HvErrorNum::EINVAL, msg: None }),
{
    let index = descriptor_index(selector);
    if index + 1 >= table.len() {
        return Err(HvError::new(HvErrorNum::EINVAL));
    }
    table[index] = tss_available(low);
    table[index + 1] = high;
    Ok(())
}

/// Clears the busy flag of the task-state descriptor that `selector`
/// selects in `table`, so that the task register can be loaded from it
/// again. A descriptor that does not lie within the table is rejected and
/// the table stays as it was.
pub fn release_tss(table: &mut [u64], selector: u16) -> (r: HvResult<()>)
    ensures
        r is Ok <==> spec_selector_index(selector) + 1 < old(table)@.len(),
        r is Ok ==> final(table)@ == old(table)@.update(
            spec_selector_index(selector) as int,
            old(table)@[spec_selector_index(selector) as int] & !DESC_TSS_BUSY,
        ),
        r is Err ==> final(table)@ == old(table)@,
        r is Err ==> r == Err::<(), HvError>(HvError { num: HvErrorNum::EINVAL, msg: None }),
{
    let index = descriptor_index(selector);
    if index + 1 >= table.len() {
        return Err(HvError::new(HvErrorNum::EINVAL));
    }
    let low: u64 = table[index];
    table[index] = tss_available(low);
    Ok(())
}

/// Bits 16 to 39 and 56 to 63 of a descriptor: the low 32 bits of the base.
pub open spec fn spec_desc_base(entry: u64) -> u64 {
    ((entry >> 16) & 0xff_ffff) | (((entry >> 56) & 0xff) << 24)
}

/// Bits 0 to 15 and 48 to 51 of a descriptor, scaled to bytes when the
/// granularity flag is set.
pub open spec fn spec_desc_limit(entry: u64) -> u64 {
    if entry & DESC_GRANULARITY != 0 {
        ((((entry & 0xffff) | (((entry >> 48) & 0xf) << 16)) << 12) | 0xfff)
    } else {
        (entry & 0xffff) | (((entry >> 48) & 0xf) << 16)
    }
}

/// Bits 40 to 47 and 52 to 55 of a descriptor, in the layout of the
/// access-rights field of a virtual-machine control structure.
pub open spec fn spec_desc_access(entry: u64) -> u64 {
    (entry >> 40) & 0xf0ff
}

proof fn lemma_desc_ranges(entry: u64)
    by (bit_vector)
    ensures
        spec_desc_base(entry) <= 0xffff_ffff,
        spec_desc_limit(entry) <= 0xffff_ffff,
        spec_desc_access(entry) <= 0xffff,
        (entry & 0xffff) | (((entry >> 48) & 0xf) << 16) <= 0xf_ffff,
{
}

impl Segment {
    /// The segment that no descriptor backs.
    pub open spec fn spec_invalid() -> Segment {
        Segment { selector: 0, base: 0, limit: 0, access_rights: ACCESS_UNUSABLE }
    }

    /// The segment of `selector` when no descriptor backs it.
    pub open spec fn spec_unusable(selector: u16) -> Segment {
        Segment { selector, base: 0, limit: 0, access_rights: ACCESS_UNUSABLE }
    }

    /// What the descriptor selected by `selector` in `table` says: base,
    /// limit and access rights of a present descriptor that lies within the
    /// table, the upper half of the base taken from the following word for
    /// a system descriptor; an unusable segment otherwise. The selector is
    /// kept in either case.
    pub open spec fn spec_from_selector(selector: u16, table: Seq<u64>) -> Segment {
        let index = spec_selector_index(selector) as int;
        if index >= table.len() || table[index] & DESC_PRESENT == 0 {
            Self::spec_unusable(selector)
        } else if table[index] & DESC_USER_SEGMENT != 0 {
            Segment {
                selector,
                base: spec_desc_base(table[index]),
                limit: spec_desc_limit(table[index]) as u32,
                access_rights: spec_desc_access(table[index]) as u32,
            }
        } else if index + 1 >= table.len() {
            Self::spec_unusable(selector)
        } else {
            Segment {
                selector,
                base: spec_desc_base(table[index]) | (table[index + 1] << 32),
                limit: spec_desc_limit(table[index]) as u32,
                access_rights: spec_desc_access(table[index]) as u32,
            }
        }
    }

    /// The segment that no descriptor backs.
    pub fn invalid() -> (r: Segment)
        ensures
            r == Self::spec_invalid(),
    {
        Segment { selector: 0, base: 0, limit: 0, access_rights: ACCESS_UNUSABLE }
    }

    /// Reads the descriptor that `selector` selects in `table`.
    pub fn from_selector(selector: u16, table: &[u64]) -> (r: Segment)
        ensures
            r == Self::spec_from_selector(selector, table@),
    {
        let unusable = Segment { selector, base: 0, limit: 0, access_rights: ACCESS_UNUSABLE };
        let index = descriptor_index(selector);
        if index >= table.len() {
            return unusable;
        }
        let entry: u64 = table[index];
        if entry & DESC_PRESENT == 0 {
            return unusable;
        }
        let mut high: u64 = 0;
        if entry & DESC_USER_SEGMENT == 0 {
            if index + 1 >= table.len() {
                return unusable;
            }
            high = table[index + 1];
        }
        proof {
            lemma_desc_ranges(entry);
        }
        let low_base: u64 = ((entry >> 16) & 0xff_ffff) | (((entry >> 56) & 0xff) << 24);
        let base: u64 = if entry & DESC_USER_SEGMENT == 0 {
            low_base | (high << 32)
        } else {
            low_base
        };
        let raw_limit: u64 = (entry & 0xffff) | (((entry >> 48) & 0xf) << 16);
        let limit: u64 = if entry & DESC_GRANULARITY != 0 {
            (raw_limit << 12) | 0xfff
        } else {
            raw_limit
        };
        let access: u64 = (entry >> 40) & 0xf0ff;
        Segment { selector, base, limit: limit as u32, access_rights: access as u32 }
    }
}

} // verus!
