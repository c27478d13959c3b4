//! What no instruction changes: the contents of program memory and the
//! sizes of the stores on the bus.

use crate::arch::cpu::{wrap16, Machine};
use crate::arch::memory::{lemma_mirror_in_range, Bus};
use crate::arch::op::{decode, AddressingMode, OPCode, Operation};
use crate::arch::{lemma_frame_keeps_wf, Accumulate, Opeland, System, WriteAddr};
use vstd::prelude::*;

verus! {

/// Machine `after` holds the program memory of `before`, and its stores have
/// their sizes if those of `before` have.
pub open spec fn preserved(before: Machine, after: Machine) -> bool {
    &&& after.bus.prg == before.bus.prg
    &&& before.wf() ==> after.wf()
}

/// Bus accesses keep program memory and the sizes of the stores.
pub proof fn lemma_access_preserves(m: Machine, addr: int, value: u8)
    ensures
        preserved(m, m.read(addr).0),
        preserved(m, m.write(addr, value).0),
        preserved(m, m.fetch().0),
        preserved(m, m.fetch_word().0),
        preserved(m, m.read_pair(addr).0),
        preserved(m, m.push(value)),
        preserved(m, m.pop().0),
{
    lemma_write_preserves(m, addr, value);
    lemma_read_preserves(m, 0x8000 + m.reg.pc);
    lemma_read_preserves(m.fetch().0, 0x8000 + m.fetch().0.reg.pc);
    lemma_read_preserves(m, addr);
    lemma_read_preserves(m.read(addr).0, addr + 1);
}

/// A bus read keeps program memory and the sizes of the stores.
proof fn lemma_read_preserves(m: Machine, addr: int)
    ensures
        preserved(m, m.read(addr).0),
{
    reveal(Bus::read);
}

/// A bus write keeps program memory and the sizes of the stores.
proof fn lemma_write_preserves(m: Machine, addr: int, value: u8)
    ensures
        preserved(m, m.write(addr, value).0),
{
    reveal(Bus::write);
    if 0 <= m.bus.video.addr < 0x4000 {
        lemma_mirror_in_range(m.bus.video.addr as int);
    }
}

/// Resolving an operand keeps program memory and the sizes of the stores.
pub proof fn lemma_operand_preserves(m: Machine, mode: AddressingMode)
    ensures
        preserved(m, m.operand(mode).0),
{
    reveal(Machine::operand);
    lemma_access_preserves(m, 0, 0);
    let f = m.fetch();
    let w = m.fetch_word();
    if let Ok(b) = f.1 {
        lemma_access_preserves(f.0, (b + m.reg.x) % 0x100, 0);
        lemma_access_preserves(f.0, b as int, 0);
    }
    if let Ok(p) = w.1 {
        lemma_access_preserves(w.0, p as int, 0);
    }
}

/// Storing a result keeps program memory and the sizes of the stores.
pub proof fn lemma_set_preserves(m: Machine, pre: u16, rhs: u16, result: u16, addr: WriteAddr)
    ensures
        preserved(m, m.set_nz((result % 0x100) as u8, addr).0),
        preserved(m, m.set_nzc(result, addr).0),
        preserved(m, m.set_nvzc(pre, rhs, result, addr).0),
{
    let value = (result % 0x100) as u8;
    let flagged = m.with_flags(m.reg.p.with_nz(value));
    if let WriteAddr::Memory(at) = addr {
        lemma_write_preserves(flagged, at as int, value);
    }
}

/// The operations on a value keep program memory and the sizes of the
/// stores.
proof fn lemma_value_preserves(m: Machine, op: OPCode, opeland: Opeland)
    ensures
        preserved(m, m.value_of(opeland).0),
        m.value_of(opeland).1 matches Ok(value) ==> {
            &&& preserved(m, m.value_of(opeland).0.acc_op(op, value).0)
            &&& preserved(m, m.value_of(opeland).0.compare_op(op, value).0)
            &&& preserved(m, m.value_of(opeland).0.logic_op(op, value).0)
        },
        preserved(m, m.load_op(op, opeland).0),
{
    if let Opeland::Address(a) = opeland {
        lemma_read_preserves(m, a as int);
    }
}

/// The step of a cell or a register keeps program memory and the sizes of
/// the stores.
proof fn lemma_step_preserves(m: Machine, op: OPCode, opeland: Opeland)
    ensures
        preserved(m, m.register_acc_op(op, opeland).0),
{
    if let Opeland::Address(a) = opeland {
        lemma_read_preserves(m, a as int);
        let r = m.read(a as int);
        if let Ok(value) = r.1 {
            lemma_write_preserves(
                r.0.with_flags(r.0.reg.p.with_nz(value.add_model(1))),
                a as int,
                value.add_model(1),
            );
            lemma_write_preserves(
                r.0.with_flags(r.0.reg.p.with_nz(value.sub_model(1))),
                a as int,
                value.sub_model(1),
            );
        }
    }
}

/// A store keeps program memory and the sizes of the stores.
proof fn lemma_store_preserves(m: Machine, op: OPCode, addr: u16)
    ensures
        preserved(m, m.store_op(op, addr as int).0),
{
    lemma_write_preserves(m, addr as int, m.reg.a);
    lemma_write_preserves(m, addr as int, m.reg.x);
    lemma_write_preserves(m, addr as int, m.reg.y);
}

/// Jumps and returns keep program memory and the sizes of the stores.
proof fn lemma_jump_preserves(m: Machine, op: OPCode, addr: u16)
    ensures
        preserved(m, m.jump_op(op, addr).0),
        preserved(m, m.rt_op(op).0),
{
    let back = wrap16(m.reg.pc + 0xFFFF);
    let one = m.push((back / 0x100) as u8);
    let two = one.push((back % 0x100) as u8);
    assert(preserved(m, one));
    assert(preserved(one, two));
    let low = m.pop();
    let high = low.0.pop();
    assert(preserved(m, low.0));
    assert(preserved(low.0, high.0));
}

/// Copies, branches and flag operations change registers only.
proof fn lemma_register_operations(m: Machine, op: OPCode, addr: u16)
    ensures
        m.copy_op(op).0.bus == m.bus,
        m.branch_op(op, addr).0.bus == m.bus,
        m.flag_op(op).0.bus == m.bus,
{
}

/// Every operation keeps program memory and the sizes of the stores.
pub proof fn lemma_dispatch_preserves(m: Machine, op: OPCode, opeland: Opeland)
    ensures
        preserved(m, m.dispatch(op, opeland).0),
{
    reveal(Machine::dispatch);
    lemma_value_preserves(m, op, opeland);
    lemma_step_preserves(m, op, opeland);
    let addr = match opeland {
        Opeland::Address(a) => a,
        _ => 0u16,
    };
    lemma_store_preserves(m, op, addr);
    lemma_jump_preserves(m, op, addr);
    lemma_register_operations(m, op, addr);
}

/// Program memory is read-only: whatever instruction a step performs, and
/// whether or not it succeeds, program memory holds afterwards what it held
/// before, and the stores on the bus keep their sizes.
pub proof fn lemma_step_preserves_program(m: Machine)
    ensures
        preserved(m, m.step().0),
{
    lemma_access_preserves(m, 0, 0);
    let f = m.fetch();
    if let Ok(byte) = f.1 {
        if let Some(opcode) = decode(byte) {
            lemma_execute_preserves(f.0, opcode);
        }
    }
}

/// Carrying out an instruction keeps program memory and the sizes of the
/// stores.
pub proof fn lemma_execute_preserves(m: Machine, opcode: Operation)
    ensures
        preserved(m, m.execute(opcode).0),
{
    lemma_operand_preserves(m, opcode.mode);
    let r = m.operand(opcode.mode);
    if let Ok(opeland) = r.1 {
        lemma_dispatch_preserves(r.0, opcode.op, opeland);
    }
}

/// A frame step changes neither program memory nor the pattern table, and
/// leaves a well-formed machine well formed.
pub proof fn lemma_frame_preserves(s: System)
    requires
        s.wf(),
    ensures
        s.frame().0.wf(),
        s.frame().0.video.pattern == s.video.pattern,
        preserved(s.machine, s.frame().0.machine),
        s.frame().1 is Err ==> s.frame().0.video == s.video,
{
    lemma_frame_keeps_wf(s);
    lemma_step_preserves_program(s.machine);
}

} // verus!
