//! The reasons for a VM exit.

use vstd::prelude::*;

verus! {

/// Why the guest was left: the basic exit reasons of the processor.
#[derive(Debug, Clone, Copy, PartialEq, Eq, Structural)]
pub enum VmExitReason {
    ExceptionOrNmi,
    ExternalInterrupt,
    TripleFault,
    InitSignal,
    StartupIpi,
    IoSmi,
    OtherSmi,
    InterruptWindow,
    NmiWindow,
    TaskSwitch,
    Cpuid,
    Getsec,
    Hlt,
    Invd,
    Invlpg,
    Rdpmc,
    Rdtsc,
    Rsm,
    Vmcall,
    Vmclear,
    Vmlaunch,
    Vmptrld,
    Vmptrst,
    Vmread,
    Vmresume,
    Vmwrite,
    Vmxoff,
    Vmxon,
    CrAccess,
    MovDr,
    IoInstruction,
    Rdmsr,
    Wrmsr,
    VmentryFailInvalidGuestState,
    VmentryFailMsrLoading,
    Mwait,
    MonitorTrapFlag,
    Monitor,
    Pause,
    VmentryFailMachineCheckEvent,
    TprBelowThreshold,
    ApicAccess,
    VirtualizedEoi,
    AccessGdtrOrIdtr,
    AccessLdtrOrTr,
    EptViolation,
    EptMisconfiguration,
    Invept,
    Rdtscp,
    VmxPreemptionTimerExpired,
    Invvpid,
    WbinvdOrWbnoinvd,
    Xsetbv,
    ApicWrite,
    Rdrand,
    Invpcid,
    Vmfunc,
    Encls,
    Rdseed,
    PageModificationLogFull,
    Xsaves,
    Xrstors,
    Pconfig,
    SppRelatedEvent,
    Umwait,
    Tpause,
    Loadiwkey,
}

impl VmExitReason {
    /// The number of the reason.
    pub open spec fn spec_number(self) -> u64 {
        match self {
            VmExitReason::ExceptionOrNmi => 0,
            VmExitReason::ExternalInterrupt => 1,
            VmExitReason::TripleFault => 2,
            VmExitReason::InitSignal => 3,
            VmExitReason::StartupIpi => 4,
            VmExitReason::IoSmi => 5,
            VmExitReason::OtherSmi => 6,
            VmExitReason::InterruptWindow => 7,
            VmExitReason::NmiWindow => 8,
            VmExitReason::TaskSwitch => 9,
            VmExitReason::Cpuid => 10,
            VmExitReason::Getsec => 11,
            VmExitReason::Hlt => 12,
            VmExitReason::Invd => 13,
            VmExitReason::Invlpg => 14,
            VmExitReason::Rdpmc => 15,
            VmExitReason::Rdtsc => 16,
            VmExitReason::Rsm => 17,
            VmExitReason::Vmcall => 18,
            VmExitReason::Vmclear => 19,
            VmExitReason::Vmlaunch => 20,
            VmExitReason::Vmptrld => 21,
            VmExitReason::Vmptrst => 22,
            VmExitReason::Vmread => 23,
            VmExitReason::Vmresume => 24,
            VmExitReason::Vmwrite => 25,
            VmExitReason::Vmxoff => 26,
            VmExitReason::Vmxon => 27,
            VmExitReason::CrAccess => 28,
            VmExitReason::MovDr => 29,
            VmExitReason::IoInstruction => 30,
            VmExitReason::Rdmsr => 31,
            VmExitReason::Wrmsr => 32,
            VmExitReason::VmentryFailInvalidGuestState => 33,
            VmExitReason::VmentryFailMsrLoading => 34,
            VmExitReason::Mwait => 36,
            VmExitReason::MonitorTrapFlag => 37,
            VmExitReason::Monitor => 39,
            VmExitReason::Pause => 40,
            VmExitReason::VmentryFailMachineCheckEvent => 41,
            VmExitReason::TprBelowThreshold => 43,
            VmExitReason::ApicAccess => 44,
            VmExitReason::VirtualizedEoi => 45,
            VmExitReason::AccessGdtrOrIdtr => 46,
            VmExitReason::AccessLdtrOrTr => 47,
            VmExitReason::EptViolation => 48,
            VmExitReason::EptMisconfiguration => 49,
            VmExitReason::Invept => 50,
            VmExitReason::Rdtscp => 51,
            VmExitReason::VmxPreemptionTimerExpired => 52,
            VmExitReason::Invvpid => 53,
            VmExitReason::WbinvdOrWbnoinvd => 54,
            VmExitReason::Xsetbv => 55,
            VmExitReason::ApicWrite => 56,
            VmExitReason::Rdrand => 57,
            VmExitReason::Invpcid => 58,
            VmExitReason::Vmfunc => 59,
            VmExitReason::Encls => 60,
            VmExitReason::Rdseed => 61,
            VmExitReason::PageModificationLogFull => 62,
            VmExitReason::Xsaves => 63,
            VmExitReason::Xrstors => 64,
            VmExitReason::Pconfig => 65,
            VmExitReason::SppRelatedEvent => 66,
            VmExitReason::Umwait => 67,
            VmExitReason::Tpause => 68,
            VmExitReason::Loadiwkey => 69,
        }
    }

    /// The number of the reason.
    #[verifier::when_used_as_spec(spec_number)]
    pub fn number(self) -> (n: u64)
        ensures
            n == self.spec_number(),
    {
        match self {
            VmExitReason::ExceptionOrNmi => 0,
            VmExitReason::ExternalInterrupt => 1,
            VmExitReason::TripleFault => 2,
            VmExitReason::InitSignal => 3,
            VmExitReason::StartupIpi => 4,
            VmExitReason::IoSmi => 5,
            VmExitReason::OtherSmi => 6,
            VmExitReason::InterruptWindow => 7,
            VmExitReason::NmiWindow => 8,
            VmExitReason::TaskSwitch => 9,
            VmExitReason::Cpuid => 10,
            VmExitReason::Getsec => 11,
            VmExitReason::Hlt => 12,
            VmExitReason::Invd => 13,
            VmExitReason::Invlpg => 14,
            VmExitReason::Rdpmc => 15,
            VmExitReason::Rdtsc => 16,
            VmExitReason::Rsm => 17,
            VmExitReason::Vmcall => 18,
            VmExitReason::Vmclear => 19,
            VmExitReason::Vmlaunch => 20,
            VmExitReason::Vmptrld => 21,
            VmExitReason::Vmptrst => 22,
            VmExitReason::Vmread => 23,
            VmExitReason::Vmresume => 24,
            VmExitReason::Vmwrite => 25,
            VmExitReason::Vmxoff => 26,
            VmExitReason::Vmxon => 27,
            VmExitReason::CrAccess => 28,
            VmExitReason::MovDr => 29,
            VmExitReason::IoInstruction => 30,
            VmExitReason::Rdmsr => 31,
            VmExitReason::Wrmsr => 32,
            VmExitReason::VmentryFailInvalidGuestState => 33,
            VmExitReason::VmentryFailMsrLoading => 34,
            VmExitReason::Mwait => 36,
            VmExitReason::MonitorTrapFlag => 37,
            VmExitReason::Monitor => 39,
            VmExitReason::Pause => 40,
            VmExitReason::VmentryFailMachineCheckEvent => 41,
            VmExitReason::TprBelowThreshold => 43,
            VmExitReason::ApicAccess => 44,
            VmExitReason::VirtualizedEoi => 45,
            VmExitReason::AccessGdtrOrIdtr => 46,
            VmExitReason::AccessLdtrOrTr => 47,
            VmExitReason::EptViolation => 48,
            VmExitReason::EptMisconfiguration => 49,
            VmExitReason::Invept => 50,
            VmExitReason::Rdtscp => 51,
            VmExitReason::VmxPreemptionTimerExpired => 52,
            VmExitReason::Invvpid => 53,
            VmExitReason::WbinvdOrWbnoinvd => 54,
            VmExitReason::Xsetbv => 55,
            VmExitReason::ApicWrite => 56,
            VmExitReason::Rdrand => 57,
            VmExitReason::Invpcid => 58,
            VmExitReason::Vmfunc => 59,
            VmExitReason::Encls => 60,
            VmExitReason::Rdseed => 61,
            VmExitReason::PageModificationLogFull => 62,
            VmExitReason::Xsaves => 63,
            VmExitReason::Xrstors => 64,
            VmExitReason::Pconfig => 65,
            VmExitReason::SppRelatedEvent => 66,
            VmExitReason::Umwait => 67,
            VmExitReason::Tpause => 68,
            VmExitReason::Loadiwkey => 69,
        }
    }

    /// The reason with the number `number`, if there is one.
    pub open spec fn spec_from_number(number: u64) -> Option<VmExitReason> {
        match number {
            0 => Some(VmExitReason::ExceptionOrNmi),
            1 => Some(VmExitReason::ExternalInterrupt),
            2 => Some(VmExitReason::TripleFault),
            3 => Some(VmExitReason::InitSignal),
            4 => Some(VmExitReason::StartupIpi),
            5 => Some(VmExitReason::IoSmi),
            6 => Some(VmExitReason::OtherSmi),
            7 => Some(VmExitReason::InterruptWindow),
            8 => Some(VmExitReason::NmiWindow),
            9 => Some(VmExitReason::TaskSwitch),
            10 => Some(VmExitReason::Cpuid),
            11 => Some(VmExitReason::Getsec),
            12 => Some(VmExitReason::Hlt),
            13 => Some(VmExitReason::Invd),
            14 => Some(VmExitReason::Invlpg),
            15 => Some(VmExitReason::Rdpmc),
            16 => Some(VmExitReason::Rdtsc),
            17 => Some(VmExitReason::Rsm),
            18 => Some(VmExitReason::Vmcall),
            19 => Some(VmExitReason::Vmclear),
            20 => Some(VmExitReason::Vmlaunch),
            21 => Some(VmExitReason::Vmptrld),
            22 => Some(VmExitReason::Vmptrst),
            23 => Some(VmExitReason::Vmread),
            24 => Some(VmExitReason::Vmresume),
            25 => Some(VmExitReason::Vmwrite),
            26 => Some(VmExitReason::Vmxoff),
            27 => Some(VmExitReason::Vmxon),
            28 => Some(VmExitReason::CrAccess),
            29 => Some(VmExitReason::MovDr),
            30 => Some(VmExitReason::IoInstruction),
            31 => Some(VmExitReason::Rdmsr),
            32 => Some(VmExitReason::Wrmsr),
            33 => Some(VmExitReason::VmentryFailInvalidGuestState),
            34 => Some(VmExitReason::VmentryFailMsrLoading),
            36 => Some(VmExitReason::Mwait),
            37 => Some(VmExitReason::MonitorTrapFlag),
            39 => Some(VmExitReason::Monitor),
            40 => Some(VmExitReason::Pause),
            41 => Some(VmExitReason::VmentryFailMachineCheckEvent),
            43 => Some(VmExitReason::TprBelowThreshold),
            44 => Some(VmExitReason::ApicAccess),
            45 => Some(VmExitReason::VirtualizedEoi),
            46 => Some(VmExitReason::AccessGdtrOrIdtr),
            47 => Some(VmExitReason::AccessLdtrOrTr),
            48 => Some(VmExitReason::EptViolation),
            49 => Some(VmExitReason::EptMisconfiguration),
            50 => Some(VmExitReason::Invept),
            51 => Some(VmExitReason::Rdtscp),
            52 => Some(VmExitReason::VmxPreemptionTimerExpired),
            53 => Some(VmExitReason::Invvpid),
            54 => Some(VmExitReason::WbinvdOrWbnoinvd),
            55 => Some(VmExitReason::Xsetbv),
            56 => Some(VmExitReason::ApicWrite),
            57 => Some(VmExitReason::Rdrand),
            58 => Some(VmExitReason::Invpcid),
            59 => Some(VmExitReason::Vmfunc),
            60 => Some(VmExitReason::Encls),
            61 => Some(VmExitReason::Rdseed),
            62 => Some(VmExitReason::PageModificationLogFull),
            63 => Some(VmExitReason::Xsaves),
            64 => Some(VmExitReason::Xrstors),
            65 => Some(VmExitReason::Pconfig),
            66 => Some(VmExitReason::SppRelatedEvent),
            67 => Some(VmExitReason::Umwait),
            68 => Some(VmExitReason::Tpause),
            69 => Some(VmExitReason::Loadiwkey),
            _ => None,
        }
    }

    /// The reason with the number `number`, if there is one.
    #[verifier::when_used_as_spec(spec_from_number)]
    pub fn from_number(number: u64) -> (reason: Option<VmExitReason>)
        ensures
            reason == Self::spec_from_number(number),
    {
        match number {
            0 => Some(VmExitReason::ExceptionOrNmi),
            1 => Some(VmExitReason::ExternalInterrupt),
            2 => Some(VmExitReason::TripleFault),
            3 => Some(VmExitReason::InitSignal),
            4 => Some(VmExitReason::StartupIpi),
            5 => Some(VmExitReason::IoSmi),
            6 => Some(VmExitReason::OtherSmi),
            7 => Some(VmExitReason::InterruptWindow),
            8 => Some(VmExitReason::NmiWindow),
            9 => Some(VmExitReason::TaskSwitch),
            10 => Some(VmExitReason::Cpuid),
            11 => Some(VmExitReason::Getsec),
            12 => Some(VmExitReason::Hlt),
            13 => Some(VmExitReason::Invd),
            14 => Some(VmExitReason::Invlpg),
            15 => Some(VmExitReason::Rdpmc),
            16 => Some(VmExitReason::Rdtsc),
            17 => Some(VmExitReason::Rsm),
            18 => Some(VmExitReason::Vmcall),
            19 => Some(VmExitReason::Vmclear),
            20 => Some(VmExitReason::Vmlaunch),
            21 => Some(VmExitReason::Vmptrld),
            22 => Some(VmExitReason::Vmptrst),
            23 => Some(VmExitReason::Vmread),
            24 => Some(VmExitReason::Vmresume),
            25 => Some(VmExitReason::Vmwrite),
            26 => Some(VmExitReason::Vmxoff),
            27 => Some(VmExitReason::Vmxon),
            28 => Some(VmExitReason::CrAccess),
            29 => Some(VmExitReason::MovDr),
            30 => Some(VmExitReason::IoInstruction),
            31 => Some(VmExitReason::Rdmsr),
            32 => Some(VmExitReason::Wrmsr),
            33 => Some(VmExitReason::VmentryFailInvalidGuestState),
            34 => Some(VmExitReason::VmentryFailMsrLoading),
            36 => Some(VmExitReason::Mwait),
            37 => Some(VmExitReason::MonitorTrapFlag),
            39 => Some(VmExitReason::Monitor),
            40 => Some(VmExitReason::Pause),
            41 => Some(VmExitReason::VmentryFailMachineCheckEvent),
            43 => Some(VmExitReason::TprBelowThreshold),
            44 => Some(VmExitReason::ApicAccess),
            45 => Some(VmExitReason::VirtualizedEoi),
            46 => Some(VmExitReason::AccessGdtrOrIdtr),
            47 => Some(VmExitReason::AccessLdtrOrTr),
            48 => Some(VmExitReason::EptViolation),
            49 => Some(VmExitReason::EptMisconfiguration),
            50 => Some(VmExitReason::Invept),
            51 => Some(VmExitReason::Rdtscp),
            52 => Some(VmExitReason::VmxPreemptionTimerExpired),
            53 => Some(VmExitReason::Invvpid),
            54 => Some(VmExitReason::WbinvdOrWbnoinvd),
            55 => Some(VmExitReason::Xsetbv),
            56 => Some(VmExitReason::ApicWrite),
            57 => Some(VmExitReason::Rdrand),
            58 => Some(VmExitReason::Invpcid),
            59 => Some(VmExitReason::Vmfunc),
            60 => Some(VmExitReason::Encls),
            61 => Some(VmExitReason::Rdseed),
            62 => Some(VmExitReason::PageModificationLogFull),
            63 => Some(VmExitReason::Xsaves),
            64 => Some(VmExitReason::Xrstors),
            65 => Some(VmExitReason::Pconfig),
            66 => Some(VmExitReason::SppRelatedEvent),
            67 => Some(VmExitReason::Umwait),
            68 => Some(VmExitReason::Tpause),
            69 => Some(VmExitReason::Loadiwkey),
            _ => None,
        }
    }

    /// The basic exit reason in the exit-reason field of the VMCS: the reason
    /// whose number stands in the low 16 bits of `field`.
    pub open spec fn spec_from_field(field: u64) -> Option<VmExitReason> {
        Self::spec_from_number(field & 0xffff)
    }

    /// The basic exit reason in the exit-reason field of the VMCS.
    #[verifier::when_used_as_spec(spec_from_field)]
    pub fn from_field(field: u64) -> (reason: Option<VmExitReason>)
        ensures
            reason == Self::spec_from_field(field),
    {
        Self::from_number(field & 0xffff)
    }
}

/// A reason is found again from its number, and a number that gives a reason
/// is the number of that reason.
pub proof fn lemma_number_round_trip(reason: VmExitReason, number: u64)
    ensures
        VmExitReason::spec_from_number(reason.spec_number()) == Some(reason),
        VmExitReason::spec_from_number(number) matches Some(r) ==> r.spec_number() == number,
{
}

/// No two reasons share a number.
pub proof fn lemma_number_injective(a: VmExitReason, b: VmExitReason)
    requires
        a.spec_number() == b.spec_number(),
    ensures
        a == b,
{
}

} // verus!
