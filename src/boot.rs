use vstd::prelude::*;
use crate::bits::field64;

verus! {

/// Saved-program-status fields (`SPSR_EL3` and `SPSR_EL2` share the layout).
pub const SPSR_D: u64 = 9;
pub const SPSR_A: u64 = 8;
pub const SPSR_I: u64 = 7;
pub const SPSR_F: u64 = 6;
/// Mode field, four bits at bit 0.
pub const SPSR_M: u64 = 0;
pub const SPSR_M_EL1H: u64 = 0b0101;
pub const SPSR_M_EL2H: u64 = 0b1001;

/// Secure-configuration register fields.
pub const SCR_NS: u64 = 0;
pub const SCR_SMD: u64 = 7;
pub const SCR_HCE: u64 = 8;
pub const SCR_RW: u64 = 10;

/// Hypervisor-configuration register: EL1 executes in AArch64.
pub const HCR_RW: u64 = 31;

/// Counter-timer hypervisor control: EL1 physical counter and timer access.
pub const CNTHCTL_EL1PCTEN: u64 = 0;
pub const CNTHCTL_EL1PCEN: u64 = 1;

/// `CurrentEL`: the level is two bits at bit 2.
pub const CURRENT_EL_SHIFT: u64 = 2;

/// Image written to `SPSR_EL3` before leaving EL3: D, A, I, F masked, EL2h.
pub const SPSR_EL3_TO_EL2: u64 = 0x3c9;
/// Image written to `SPSR_EL2` before leaving EL2: D, A, I, F masked, EL1h.
pub const SPSR_EL2_TO_EL1: u64 = 0x3c5;
/// Image written to `SCR_EL3`: AArch64 below, non-secure, SMC disabled, HVC disabled.
pub const SCR_EL3_NONSECURE: u64 = 0x481;
/// Image written to `CNTHCTL_EL2`: EL1PCEN and EL1PCTEN set.
pub const CNTHCTL_EL2_EL1_ACCESS: u64 = 0x3;
/// Image written to `HCR_EL2`: EL1 is AArch64.
pub const HCR_EL2_EL1_AARCH64: u64 = 0x8000_0000;

/// A privilege level of the core, least privileged first.
#[derive(Clone, Copy, Debug, PartialEq, Eq, Structural)]
pub enum ExceptionLevel {
    EL0,
    EL1,
    EL2,
    EL3,
}

impl ExceptionLevel {
    pub open spec fn rank(self) -> nat {
        match self {
            ExceptionLevel::EL0 => 0,
            ExceptionLevel::EL1 => 1,
            ExceptionLevel::EL2 => 2,
            ExceptionLevel::EL3 => 3,
        }
    }
}

/// The level that a raw `CurrentEL` image reports.
pub open spec fn level_of(raw: u64) -> ExceptionLevel {
    let el = field64(raw, CURRENT_EL_SHIFT, 3);
    if el == 0 {
        ExceptionLevel::EL0
    } else if el == 1 {
        ExceptionLevel::EL1
    } else if el == 2 {
        ExceptionLevel::EL2
    } else {
        ExceptionLevel::EL3
    }
}

/// Decodes a raw `CurrentEL` image.
pub fn current_level(raw: u64) -> (r: ExceptionLevel)
    ensures
        r == level_of(raw),
{
    let el: u64 = (raw >> 2u64) & 3u64;
    if el == 0 {
        ExceptionLevel::EL0
    } else if el == 1 {
        ExceptionLevel::EL1
    } else if el == 2 {
        ExceptionLevel::EL2
    } else {
        ExceptionLevel::EL3
    }
}

/// Addresses that the platform's memory layout supplies.
#[derive(Clone, Copy, Debug, PartialEq, Eq, Structural)]
pub struct BootConfig {
    /// Restart vector that the EL3 leg returns to.
    pub reload_addr: u64,
    /// Address of the kernel's entry function.
    pub kernel_entry: u64,
    /// Initial EL1 stack pointer.
    pub el1_stack: u64,
}

/// The privileged registers that the descent programs.
#[derive(Clone, Copy, Debug, PartialEq, Eq, Structural)]
pub struct SysRegs {
    pub spsr_el3: u64,
    pub scr_el3: u64,
    pub elr_el3: u64,
    pub cnthctl_el2: u64,
    pub cntvoff_el2: u64,
    pub spsr_el2: u64,
    pub elr_el2: u64,
    pub hcr_el2: u64,
    pub sp_el1: u64,
}

/// How control leaves the descent: an exception return from a level, or a
/// direct jump into the kernel entry.
#[derive(Clone, Copy, Debug, PartialEq, Eq, Structural)]
pub enum Transfer {
    ExceptionReturn { from: ExceptionLevel },
    EnterKernel,
}

/// The level at which execution continues after a transfer taken at `at`.
pub open spec fn level_after(at: ExceptionLevel, t: Transfer) -> ExceptionLevel {
    match t {
        Transfer::ExceptionReturn { from } => if from == ExceptionLevel::EL3 {
            ExceptionLevel::EL2
        } else {
            ExceptionLevel::EL1
        },
        Transfer::EnterKernel => at,
    }
}

/// The address at which execution continues after a transfer.
pub open spec fn resume_addr(regs: SysRegs, cfg: BootConfig, t: Transfer) -> u64 {
    match t {
        Transfer::ExceptionReturn { from } => if from == ExceptionLevel::EL3 {
            regs.elr_el3
        } else {
            regs.elr_el2
        },
        Transfer::EnterKernel => cfg.kernel_entry,
    }
}

/// The EL3 leg: stage a masked, non-secure, AArch64 return to EL2h at the
/// restart vector.
pub fn transition_to_el2(regs: &mut SysRegs, cfg: &BootConfig) -> (t: Transfer)
    ensures
        t == (Transfer::ExceptionReturn { from: ExceptionLevel::EL3 }),
        *final(regs) == (SysRegs {
            spsr_el3: SPSR_EL3_TO_EL2,
            scr_el3: SCR_EL3_NONSECURE,
            elr_el3: cfg.reload_addr,
            ..*old(regs)
        }),
{
    regs.spsr_el3 = SPSR_EL3_TO_EL2;
    regs.scr_el3 = SCR_EL3_NONSECURE;
    regs.elr_el3 = cfg.reload_addr;
    Transfer::ExceptionReturn { from: ExceptionLevel::EL3 }
}

/// The EL2 leg: give EL1 the counters, zero the virtual offset, stage a
/// masked AArch64 return to EL1h at the kernel entry with its stack set.
pub fn transition_to_el1(regs: &mut SysRegs, cfg: &BootConfig) -> (t: Transfer)
    ensures
        t == (Transfer::ExceptionReturn { from: ExceptionLevel::EL2 }),
        *final(regs) == (SysRegs {
            cnthctl_el2: CNTHCTL_EL2_EL1_ACCESS,
            cntvoff_el2: 0,
            spsr_el2: SPSR_EL2_TO_EL1,
            elr_el2: cfg.kernel_entry,
            hcr_el2: HCR_EL2_EL1_AARCH64,
            sp_el1: cfg.el1_stack,
            ..*old(regs)
        }),
{
    regs.cnthctl_el2 = CNTHCTL_EL2_EL1_ACCESS;
    regs.cntvoff_el2 = 0;
    regs.spsr_el2 = SPSR_EL2_TO_EL1;
    regs.elr_el2 = cfg.kernel_entry;
    regs.hcr_el2 = HCR_EL2_EL1_AARCH64;
    regs.sp_el1 = cfg.el1_stack;
    Transfer::ExceptionReturn { from: ExceptionLevel::EL2 }
}

/// One step of the descent from the level that `current_el` (a raw
/// `CurrentEL` image) reports.
pub fn start_kernel(current_el: u64, regs: &mut SysRegs, cfg: &BootConfig) -> (t: Transfer)
    ensures
        level_of(current_el) == ExceptionLevel::EL3 ==> t == (Transfer::ExceptionReturn {
            from: ExceptionLevel::EL3,
        }) && *final(regs) == (SysRegs {
            spsr_el3: SPSR_EL3_TO_EL2,
            scr_el3: SCR_EL3_NONSECURE,
            elr_el3: cfg.reload_addr,
            ..*old(regs)
        }),
        level_of(current_el) == ExceptionLevel::EL2 ==> t == (Transfer::ExceptionReturn {
            from: ExceptionLevel::EL2,
        }) && *final(regs) == (SysRegs {
            cnthctl_el2: CNTHCTL_EL2_EL1_ACCESS,
            cntvoff_el2: 0,
            spsr_el2: SPSR_EL2_TO_EL1,
            elr_el2: cfg.kernel_entry,
            hcr_el2: HCR_EL2_EL1_AARCH64,
            sp_el1: cfg.el1_stack,
            ..*old(regs)
        }),
        level_of(current_el).rank() <= 1 ==> t == Transfer::EnterKernel && *final(regs)
            == *old(regs),
        level_after(level_of(current_el), t).rank() <= level_of(current_el).rank(),
        level_of(current_el).rank() > 1 ==> level_after(level_of(current_el), t).rank() + 1
            == level_of(current_el).rank(),
{
    match current_level(current_el) {
        ExceptionLevel::EL3 => transition_to_el2(regs, cfg),
        ExceptionLevel::EL2 => transition_to_el1(regs, cfg),
        _ => Transfer::EnterKernel,
    }
}

/// The staged status images mask debug, SError, IRQ and FIQ and select the
/// handler-stack mode of the next level; `SCR_EL3` makes the next level
/// non-secure AArch64 with SMC disabled and HVC not enabled; `HCR_EL2` makes
/// EL1 AArch64; `CNTHCTL_EL2` opens both EL1 counter bits.
pub proof fn lemma_register_images()
    ensures
        field64(SPSR_EL3_TO_EL2, SPSR_D, 1) == 1,
        field64(SPSR_EL3_TO_EL2, SPSR_A, 1) == 1,
        field64(SPSR_EL3_TO_EL2, SPSR_I, 1) == 1,
        field64(SPSR_EL3_TO_EL2, SPSR_F, 1) == 1,
        field64(SPSR_EL3_TO_EL2, SPSR_M, 0xf) == SPSR_M_EL2H,
        field64(SPSR_EL2_TO_EL1, SPSR_D, 1) == 1,
        field64(SPSR_EL2_TO_EL1, SPSR_A, 1) == 1,
        field64(SPSR_EL2_TO_EL1, SPSR_I, 1) == 1,
        field64(SPSR_EL2_TO_EL1, SPSR_F, 1) == 1,
        field64(SPSR_EL2_TO_EL1, SPSR_M, 0xf) == SPSR_M_EL1H,
        field64(SCR_EL3_NONSECURE, SCR_NS, 1) == 1,
        field64(SCR_EL3_NONSECURE, SCR_RW, 1) == 1,
        field64(SCR_EL3_NONSECURE, SCR_SMD, 1) == 1,
        field64(SCR_EL3_NONSECURE, SCR_HCE, 1) == 0,
        field64(HCR_EL2_EL1_AARCH64, HCR_RW, 1) == 1,
        field64(CNTHCTL_EL2_EL1_ACCESS, CNTHCTL_EL1PCEN, 1) == 1,
        field64(CNTHCTL_EL2_EL1_ACCESS, CNTHCTL_EL1PCTEN, 1) == 1,
{
    assert(field64(0x3c9u64, 9, 1) == 1 && field64(0x3c9u64, 8, 1) == 1 && field64(0x3c9u64, 7, 1)
        == 1 && field64(0x3c9u64, 6, 1) == 1 && field64(0x3c9u64, 0, 0xf) == 0b1001)
        by (bit_vector);
    assert(field64(0x3c5u64, 9, 1) == 1 && field64(0x3c5u64, 8, 1) == 1 && field64(0x3c5u64, 7, 1)
        == 1 && field64(0x3c5u64, 6, 1) == 1 && field64(0x3c5u64, 0, 0xf) == 0b0101)
        by (bit_vector);
    assert(field64(0x481u64, 0, 1) == 1 && field64(0x481u64, 10, 1) == 1 && field64(0x481u64, 7, 1)
        == 1 && field64(0x481u64, 8, 1) == 0) by (bit_vector);
    assert(field64(0x8000_0000u64, 31, 1) == 1) by (bit_vector);
    assert(field64(3u64, 1, 1) == 1 && field64(3u64, 0, 1) == 1) by (bit_vector);
}

/// A raw `CurrentEL` image with the level field set to `el` (0 to 3).
pub open spec fn current_el_image(el: u64) -> u64 {
    el << CURRENT_EL_SHIFT
}

/// The whole descent from EL3: the first step leaves the next level
/// non-secure and AArch64 and returns to the restart vector at EL2; run again
/// from EL2 on the same registers, the second step returns to the kernel
/// entry at EL1 with the configured EL1 stack, and keeps what the first staged.
pub proof fn lemma_descent_from_el3(
    regs0: SysRegs,
    cfg: BootConfig,
    regs1: SysRegs,
    t1: Transfer,
    regs2: SysRegs,
    t2: Transfer,
)
    requires
        t1 == (Transfer::ExceptionReturn { from: ExceptionLevel::EL3 }),
        regs1 == (SysRegs {
            spsr_el3: SPSR_EL3_TO_EL2,
            scr_el3: SCR_EL3_NONSECURE,
            elr_el3: cfg.reload_addr,
            ..regs0
        }),
        t2 == (Transfer::ExceptionReturn { from: ExceptionLevel::EL2 }),
        regs2 == (SysRegs {
            cnthctl_el2: CNTHCTL_EL2_EL1_ACCESS,
            cntvoff_el2: 0,
            spsr_el2: SPSR_EL2_TO_EL1,
            elr_el2: cfg.kernel_entry,
            hcr_el2: HCR_EL2_EL1_AARCH64,
            sp_el1: cfg.el1_stack,
            ..regs1
        }),
    ensures
        level_of(current_el_image(3)) == ExceptionLevel::EL3,
        level_of(current_el_image(2)) == ExceptionLevel::EL2,
        level_of(current_el_image(1)) == ExceptionLevel::EL1,
        level_after(ExceptionLevel::EL3, t1) == ExceptionLevel::EL2,
        field64(regs1.scr_el3, SCR_NS, 1) == 1,
        field64(regs1.scr_el3, SCR_RW, 1) == 1,
        resume_addr(regs1, cfg, t1) == cfg.reload_addr,
        level_after(ExceptionLevel::EL2, t2) == ExceptionLevel::EL1,
        resume_addr(regs2, cfg, t2) == cfg.kernel_entry,
        regs2.sp_el1 == cfg.el1_stack,
        field64(regs2.scr_el3, SCR_NS, 1) == 1,
        field64(regs2.hcr_el2, HCR_RW, 1) == 1,
{
    lemma_register_images();
    assert(field64(3u64 << 2, 2, 3) == 3 && field64(2u64 << 2, 2, 3) == 2 && field64(1u64 << 2, 2, 3)
        == 1) by (bit_vector);
}

} // verus!
