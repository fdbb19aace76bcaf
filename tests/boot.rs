use el_boot::boot::{
    current_level, start_kernel, transition_to_el1, transition_to_el2, BootConfig,
    ExceptionLevel, SysRegs, Transfer, HCR_EL2_EL1_AARCH64, SCR_EL3_NONSECURE,
    SPSR_EL2_TO_EL1, SPSR_EL3_TO_EL2,
};

fn zero_regs() -> SysRegs {
    SysRegs {
        spsr_el3: 0,
        scr_el3: 0,
        elr_el3: 0,
        cnthctl_el2: 0,
        cntvoff_el2: 0,
        spsr_el2: 0,
        elr_el2: 0,
        hcr_el2: 0,
        sp_el1: 0,
    }
}

fn config() -> BootConfig {
    BootConfig { reload_addr: 0x80000, kernel_entry: 0x81234, el1_stack: 0x80000 }
}

#[test]
fn current_level_decodes_bits_two_and_three() {
    assert_eq!(current_level(0b0000), ExceptionLevel::EL0);
    assert_eq!(current_level(0b0100), ExceptionLevel::EL1);
    assert_eq!(current_level(0b1000), ExceptionLevel::EL2);
    assert_eq!(current_level(0b1100), ExceptionLevel::EL3);
    assert_eq!(current_level(0b1011), ExceptionLevel::EL2);
}

#[test]
fn descent_from_el3_then_el2() {
    let cfg = config();
    let mut regs = zero_regs();
    let t1 = start_kernel(3 << 2, &mut regs, &cfg);
    assert_eq!(t1, Transfer::ExceptionReturn { from: ExceptionLevel::EL3 });
    assert_eq!(regs.scr_el3 & 1, 1, "non-secure");
    assert_eq!((regs.scr_el3 >> 10) & 1, 1, "next level is AArch64");
    assert_eq!(regs.elr_el3, cfg.reload_addr);
    assert_eq!(regs.spsr_el3 & 0xf, 0b1001);
    assert_eq!((regs.spsr_el3 >> 6) & 0xf, 0xf);

    let t2 = start_kernel(2 << 2, &mut regs, &cfg);
    assert_eq!(t2, Transfer::ExceptionReturn { from: ExceptionLevel::EL2 });
    assert_eq!(regs.elr_el2, cfg.kernel_entry);
    assert_eq!(regs.sp_el1, cfg.el1_stack);
    assert_eq!(regs.cntvoff_el2, 0);
    assert_eq!(regs.cnthctl_el2 & 3, 3);
    assert_eq!((regs.hcr_el2 >> 31) & 1, 1);
    assert_eq!(regs.spsr_el2 & 0xf, 0b0101);
    assert_eq!(regs.scr_el3, SCR_EL3_NONSECURE);

    let before = regs;
    let t3 = start_kernel(1 << 2, &mut regs, &cfg);
    assert_eq!(t3, Transfer::EnterKernel);
    assert_eq!(regs, before);
}

#[test]
fn el0_and_el1_enter_kernel_directly() {
    let cfg = config();
    let mut regs = zero_regs();
    assert_eq!(start_kernel(0, &mut regs, &cfg), Transfer::EnterKernel);
    assert_eq!(regs, zero_regs());
}

#[test]
fn legs_write_the_documented_images() {
    let cfg = config();
    let mut regs = zero_regs();
    transition_to_el2(&mut regs, &cfg);
    assert_eq!(regs.spsr_el3, 0x3c9);
    assert_eq!(regs.spsr_el3, SPSR_EL3_TO_EL2);
    assert_eq!(regs.scr_el3, 0x481);
    let mut regs = zero_regs();
    transition_to_el1(&mut regs, &cfg);
    assert_eq!(regs.spsr_el2, SPSR_EL2_TO_EL1);
    assert_eq!(regs.spsr_el2, 0x3c5);
    assert_eq!(regs.hcr_el2, HCR_EL2_EL1_AARCH64);
    assert_eq!(regs.spsr_el3, 0);
}
