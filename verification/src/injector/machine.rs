//! What the machine code that the assembler emits does when it runs: the instructions it is
//! made of, and the calls, stores and return they perform, with the value each argument
//! register holds at each call under the x64 calling convention.

use vstd::prelude::*;
use crate::injector::assembler::{
    sub_rsp_code, add_rsp_code, mov_rax_code, mov_rcx_code, mov_rdx_code, mov_r8_code, mov_r9_code,
    call_rax_code, mov_rax_to_code, ret_code,
};

verus! {

/// An instruction that the assembler emits.
pub enum Instr {
    SubRsp(usize),
    AddRsp(usize),
    MovRax(usize),
    MovRcx(usize),
    MovRdx(usize),
    MovR8(usize),
    MovR9(usize),
    CallRax,
    MovRaxTo(usize),
    Ret,
}

/// The machine code of one instruction.
pub open spec fn encode(i: Instr) -> Seq<u8> {
    match i {
        Instr::SubRsp(v) => sub_rsp_code(v),
        Instr::AddRsp(v) => add_rsp_code(v),
        Instr::MovRax(v) => mov_rax_code(v),
        Instr::MovRcx(v) => mov_rcx_code(v),
        Instr::MovRdx(v) => mov_rdx_code(v),
        Instr::MovR8(v) => mov_r8_code(v),
        Instr::MovR9(v) => mov_r9_code(v),
        Instr::CallRax => call_rax_code(),
        Instr::MovRaxTo(a) => mov_rax_to_code(a),
        Instr::Ret => ret_code(),
    }
}

/// The machine code of the first `n` instructions of a program, in order.
pub open spec fn encode_upto(p: Seq<Instr>, n: int) -> Seq<u8>
    decreases n,
{
    if n <= 0 {
        Seq::empty()
    } else {
        encode_upto(p, n - 1) + encode(p[n - 1])
    }
}

/// The machine code of a program.
pub open spec fn encode_all(p: Seq<Instr>) -> Seq<u8> {
    encode_upto(p, p.len() as int)
}

/// What a register holds: a value the code loaded, what the `k`-th call returned, or
/// something the code does not know (a volatile register after a call, or any register
/// before the code set it).
pub enum Value {
    Imm(usize),
    ReturnOf(nat),
    Unknown,
}

/// The registers that the code reads and writes, the bytes reserved on the stack below the
/// entry stack pointer, and the number of calls made so far.
pub struct Machine {
    pub rax: Value,
    pub rcx: Value,
    pub rdx: Value,
    pub r8: Value,
    pub r9: Value,
    pub reserved: int,
    pub calls: nat,
}

/// What the code does that can be seen from outside.
pub enum Event {
    /// A call of the function whose address is in rax, with its four register arguments, made
    /// with `reserved` bytes of stack reserved.
    Call { target: Value, rcx: Value, rdx: Value, r8: Value, r9: Value, reserved: int },
    /// rax written at `address`.
    Store { address: usize, value: Value },
    /// The return to the caller, with `reserved` bytes of stack still reserved.
    Return { reserved: int },
}

/// The machine when the code is entered: nothing known, nothing reserved, no call made.
pub open spec fn entry() -> Machine {
    Machine {
        rax: Value::Unknown,
        rcx: Value::Unknown,
        rdx: Value::Unknown,
        r8: Value::Unknown,
        r9: Value::Unknown,
        reserved: 0,
        calls: 0,
    }
}

/// One instruction's effect: the machine after it. A call leaves its result in rax and the
/// other volatile argument registers unknown.
pub open spec fn step(m: Machine, i: Instr) -> Machine {
    match i {
        Instr::SubRsp(v) => Machine { reserved: m.reserved + v, ..m },
        Instr::AddRsp(v) => Machine { reserved: m.reserved - v, ..m },
        Instr::MovRax(v) => Machine { rax: Value::Imm(v), ..m },
        Instr::MovRcx(v) => Machine { rcx: Value::Imm(v), ..m },
        Instr::MovRdx(v) => Machine { rdx: Value::Imm(v), ..m },
        Instr::MovR8(v) => Machine { r8: Value::Imm(v), ..m },
        Instr::MovR9(v) => Machine { r9: Value::Imm(v), ..m },
        Instr::CallRax => Machine {
            rax: Value::ReturnOf(m.calls),
            rcx: Value::Unknown,
            rdx: Value::Unknown,
            r8: Value::Unknown,
            r9: Value::Unknown,
            calls: m.calls + 1,
            ..m
        },
        Instr::MovRaxTo(_) => m,
        Instr::Ret => m,
    }
}

/// What one instruction does that can be seen from outside.
pub open spec fn events_of(m: Machine, i: Instr) -> Seq<Event> {
    match i {
        Instr::CallRax => seq![
            Event::Call { target: m.rax, rcx: m.rcx, rdx: m.rdx, r8: m.r8, r9: m.r9, reserved: m.reserved },
        ],
        Instr::MovRaxTo(a) => seq![Event::Store { address: a, value: m.rax }],
        Instr::Ret => seq![Event::Return { reserved: m.reserved }],
        _ => Seq::empty(),
    }
}

/// The machine after the first `n` instructions of a program.
pub open spec fn machine_after(p: Seq<Instr>, n: int) -> Machine
    decreases n,
{
    if n <= 0 {
        entry()
    } else {
        step(machine_after(p, n - 1), p[n - 1])
    }
}

/// What the first `n` instructions of a program do, in order.
pub open spec fn trace_upto(p: Seq<Instr>, n: int) -> Seq<Event>
    decreases n,
{
    if n <= 0 {
        Seq::empty()
    } else {
        trace_upto(p, n - 1) + events_of(machine_after(p, n - 1), p[n - 1])
    }
}

/// What a program does when it runs, in order.
pub open spec fn trace(p: Seq<Instr>) -> Seq<Event> {
    trace_upto(p, p.len() as int)
}

/// The code `code` is the machine code of a program that does `events`, in that order.
pub open spec fn code_does(code: Seq<u8>, events: Seq<Event>) -> bool {
    exists|p: Seq<Instr>| #[trigger] encode_all(p) == code && trace(p) == events
}

} // verus!
