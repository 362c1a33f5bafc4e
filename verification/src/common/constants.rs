//! Numbers of the model-specific registers that the hypervisor reads.

use vstd::prelude::*;

verus! {

pub const MSR_IA32_FEATURE_CONTROL: u32 = 0x0000_003a;

pub const MSR_IA32_SYSENTER_CS: u32 = 0x0000_0174;

pub const MSR_IA32_SYSENTER_ESP: u32 = 0x0000_0175;

pub const MSR_IA32_SYSENTER_EIP: u32 = 0x0000_0176;

pub const MSR_IA32_CR_PAT: u32 = 0x0000_0277;

pub const MSR_IA32_VMX_BASIC: u32 = 0x0000_0480;

pub const MSR_IA32_VMX_PINBASED_CTLS: u32 = 0x0000_0481;

pub const MSR_IA32_VMX_PROCBASED_CTLS: u32 = 0x0000_0482;

pub const MSR_IA32_VMX_EXIT_CTLS: u32 = 0x0000_0483;

pub const MSR_IA32_VMX_ENTRY_CTLS: u32 = 0x0000_0484;

pub const MSR_IA32_VMX_CR0_FIXED0: u32 = 0x0000_0486;

pub const MSR_IA32_VMX_CR0_FIXED1: u32 = 0x0000_0487;

pub const MSR_IA32_VMX_CR4_FIXED0: u32 = 0x0000_0488;

pub const MSR_IA32_VMX_CR4_FIXED1: u32 = 0x0000_0489;

pub const MSR_IA32_VMX_PROCBASED_CTLS2: u32 = 0x0000_048b;

pub const MSR_EFER: u32 = 0xc000_0080;

} // verus!
