use nesnes::arch::register::{Register, State};

fn flags(n: bool, v: bool, b: bool, i: bool, z: bool, c: bool) -> State {
    State { n, v, b, i, z, c }
}

#[test]
fn power_on_registers() {
    let r = Register::default();
    assert_eq!(r.a, 0);
    assert_eq!(r.x, 0);
    assert_eq!(r.y, 0);
    assert_eq!(r.pc, 0);
    assert_eq!(r.sp, 0);
    assert_eq!(r.p, flags(false, false, true, true, false, false));
    assert_eq!(State::default(), flags(false, false, true, true, false, false));
}

#[test]
fn program_counter_steps_and_wraps() {
    let mut r = Register::default();
    r.pc_increment();
    assert_eq!(r.pc, 1);
    r.pc = 0xFFFF;
    r.pc_increment();
    assert_eq!(r.pc, 0);
    assert_eq!(r, Register::default());
}

#[test]
fn stack_pointer_steps_and_wraps() {
    let mut r = Register::default();
    r.sp_decrement();
    assert_eq!(r.sp, 0xFF);
    r.sp_increment();
    assert_eq!(r.sp, 0x00);
    r.sp = 0x7F;
    r.sp_increment();
    assert_eq!(r.sp, 0x80);
    r.sp_decrement();
    r.sp_decrement();
    assert_eq!(r.sp, 0x7E);
}

#[test]
fn soft_reset_restores_the_flags() {
    let mut r = Register::default();
    r.a = 7;
    r.p = flags(true, true, false, false, true, true);
    r.soft_reset();
    assert_eq!(r.p, State::default());
    assert_eq!(r.a, 7);
}

#[test]
fn nmi_sets_interrupt_disable_and_clears_break() {
    let mut r = Register::default();
    r.pc = 0x1234;
    r.sp = 0x80;
    r.p = flags(true, true, true, false, true, true);
    r.nmi();
    assert_eq!(r.p, flags(true, true, false, true, true, true));
    assert_eq!(r.pc, 0x1234);
    assert_eq!(r.sp, 0x80);
    r.p = flags(false, false, false, true, false, false);
    r.nmi();
    assert_eq!(r.p, flags(false, false, false, true, false, false));
}

#[test]
fn hard_reset_sets_interrupt_disable() {
    let mut r = Register::default();
    r.p = flags(true, false, false, false, true, false);
    r.hard_reset();
    assert_eq!(r.p, flags(true, false, false, true, true, false));
}

#[test]
fn irq_sets_interrupt_disable_and_inverts_break() {
    let mut r = Register::default();
    r.p = flags(false, true, false, false, false, true);
    r.irq();
    assert_eq!(r.p, flags(false, true, true, true, false, true));
    r.irq();
    assert_eq!(r.p, flags(false, true, false, true, false, true));
}
