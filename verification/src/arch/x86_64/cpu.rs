//! Processor identification and the features the hypervisor cannot do without.

use vstd::prelude::*;
use crate::error::{HvError, HvErrorNum, HvResult};

verus! {

/// The registers that CPUID returns for leaf 1.
#[derive(Clone, Copy, Debug, PartialEq, Eq, Structural)]
pub struct FeatureInfo {
    pub eax: u32,
    pub ebx: u32,
    pub ecx: u32,
    pub edx: u32,
}

/// The feature bits of the processor.
#[derive(Clone, Copy, Debug, PartialEq, Eq, Structural)]
pub struct CpuFeatures {
    pub info: FeatureInfo,
}

impl FeatureInfo {
    /// The local APIC id that the processor was given at reset: the top
    /// byte of EBX.
    pub open spec fn spec_initial_local_apic_id(self) -> u8 {
        (self.ebx >> 24) as u8
    }

    /// The local APIC id that the processor was given at reset.
    pub fn initial_local_apic_id(&self) -> (r: u8)
        ensures
            r == self.spec_initial_local_apic_id(),
    {
        let ebx: u32 = self.ebx;
        assert((ebx >> 24) <= 0xff) by (bit_vector);
        (ebx >> 24) as u8
    }
}

impl CpuFeatures {
    /// Physical address extension: bit 6 of EDX.
    pub open spec fn spec_has_pae(self) -> bool {
        self.info.edx & 0x40 != 0
    }

    /// XSAVE and the extended-state instructions: bit 26 of ECX.
    pub open spec fn spec_has_xsave(self) -> bool {
        self.info.ecx & 0x400_0000 != 0
    }

    /// The feature bits in the registers of CPUID leaf 1.
    pub fn new(info: FeatureInfo) -> (r: CpuFeatures)
        ensures
            r.info == info,
    {
        CpuFeatures { info }
    }

    /// Whether the processor has physical address extension.
    pub fn has_pae(&self) -> (r: bool)
        ensures
            r == self.spec_has_pae(),
    {
        self.info.edx & 0x40 != 0
    }

    /// Whether the processor has XSAVE.
    pub fn has_xsave(&self) -> (r: bool)
        ensures
            r == self.spec_has_xsave(),
    {
        self.info.ecx & 0x400_0000 != 0
    }
}

/// The identifier of the processor that produced `info`: its initial local
/// APIC id.
pub fn id(info: &FeatureInfo) -> (r: usize)
    ensures
        r == info.spec_initial_local_apic_id(),
{
    info.initial_local_apic_id() as usize
}

/// Checks that the processor has what the host control registers will
/// enable: physical address extension first, then XSAVE.
pub fn check_cpuid(features: &CpuFeatures) -> (r: HvResult<()>)
    ensures
        r == if !features.spec_has_pae() {
            Err::<(), HvError>(
                HvError { num: HvErrorNum::ENODEV, msg: Some("PAE is not supported!") },
            )
        } else if !features.spec_has_xsave() {
            Err::<(), HvError>(
                HvError { num: HvErrorNum::ENODEV, msg: Some("OSXSAVE is not supported!") },
            )
        } else {
            Ok::<(), HvError>(())
        },
{
    // CR4.PAE will be set in the host CR4.
    if !features.has_pae() {
        return Err(HvError::with_msg(HvErrorNum::ENODEV, "PAE is not supported!"));
    }
    // CR4.OSXSAVE will be set in the host CR4.
    if !features.has_xsave() {
        return Err(HvError::with_msg(HvErrorNum::ENODEV, "OSXSAVE is not supported!"));
    }
    Ok(())
}

} // verus!
