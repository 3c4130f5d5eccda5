//! The machine-code stubs that the injector runs in a thread of the game process. Each stub
//! reserves the 0x28-byte shadow space, registers the thread with the Mono root domain where
//! needed, calls one Mono function with its arguments in RCX, RDX, R8 and R9, stores RAX where
//! asked, releases the shadow space and returns.

use vstd::prelude::*;
use vstd::string::StringSliceAdditionalSpecFns;
use crate::injector::assembler::{
    Assembler, sub_rsp_code, add_rsp_code, mov_rax_code, mov_rcx_code, mov_rdx_code, mov_r8_code,
    mov_r9_code, call_rax_code, mov_rax_to_code, ret_code, word_bytes, push_word,
};
use crate::injector::machine::{code_does, encode_all, encode_upto, machine_after, trace, trace_upto, Event, Instr, Value};

verus! {

/// The size of the shadow space a x64 caller reserves, plus the alignment padding.
pub const SHADOW_SPACE: usize = 0x28;

/// A stub around `body`: reserve the shadow space, run the body, release it and return.
pub open spec fn framed(body: Seq<u8>) -> Seq<u8> {
    sub_rsp_code(SHADOW_SPACE) + body + add_rsp_code(SHADOW_SPACE) + ret_code()
}

/// `mono_thread_attach(root_domain)`: registers the running thread with Mono.
pub open spec fn attach_code(thread_attach_fn: usize, root_domain: usize) -> Seq<u8> {
    mov_rax_code(thread_attach_fn) + mov_rcx_code(root_domain) + call_rax_code()
}

/// `mono_get_root_domain()`, the result stored at `ret_val_ptr`.
pub open spec fn root_domain_stub(get_root_domain_fn: usize, ret_val_ptr: usize) -> Seq<u8> {
    framed(mov_rax_code(get_root_domain_fn) + call_rax_code() + mov_rax_to_code(ret_val_ptr))
}

/// `mono_image_open_from_data(data, data_len, need_copy = 1, status)`, the image stored at
/// `ret_val_ptr`.
pub open spec fn image_from_data_stub(
    thread_attach_fn: usize,
    image_open_fn: usize,
    root_domain: usize,
    data_ptr: usize,
    data_len: usize,
    status_ptr: usize,
    ret_val_ptr: usize,
) -> Seq<u8> {
    framed(attach_code(thread_attach_fn, root_domain) + mov_rax_code(image_open_fn) + mov_rcx_code(
        data_ptr,
    ) + mov_rdx_code(data_len) + mov_r8_code(1) + mov_r9_code(status_ptr) + call_rax_code()
        + mov_rax_to_code(ret_val_ptr))
}

/// `mono_assembly_load_from(image, name, status)`, the assembly stored at `ret_val_ptr`.
pub open spec fn assembly_from_image_stub(
    thread_attach_fn: usize,
    load_from_fn: usize,
    root_domain: usize,
    image_ptr: usize,
    name_ptr: usize,
    status_ptr: usize,
    ret_val_ptr: usize,
) -> Seq<u8> {
    framed(attach_code(thread_attach_fn, root_domain) + mov_rax_code(load_from_fn) + mov_rcx_code(
        image_ptr,
    ) + mov_rdx_code(name_ptr) + mov_r8_code(status_ptr) + call_rax_code() + mov_rax_to_code(
        ret_val_ptr,
    ))
}

/// A call of a three-argument Mono function whose result is stored at `ret_val_ptr`:
/// `mono_class_from_name(image, namespace, name)`, `mono_class_get_method_from_name(class,
/// name, param_count)` and `mono_string_new_len(domain, text, length)`.
pub open spec fn three_arg_stub(
    thread_attach_fn: usize,
    function: usize,
    root_domain: usize,
    arg1: usize,
    arg2: usize,
    arg3: usize,
    ret_val_ptr: usize,
) -> Seq<u8> {
    framed(attach_code(thread_attach_fn, root_domain) + mov_rax_code(function) + mov_rcx_code(arg1)
        + mov_rdx_code(arg2) + mov_r8_code(arg3) + call_rax_code() + mov_rax_to_code(ret_val_ptr))
}

/// `mono_runtime_invoke(method, obj = 0, params, exc)`; the exception object, if any, is
/// written at `exception_ptr` by Mono itself.
pub open spec fn runtime_invoke_stub(
    thread_attach_fn: usize,
    invoke_fn: usize,
    root_domain: usize,
    method_ptr: usize,
    params_ptr: usize,
    exception_ptr: usize,
) -> Seq<u8> {
    framed(attach_code(thread_attach_fn, root_domain) + mov_rax_code(invoke_fn) + mov_rcx_code(
        method_ptr,
    ) + mov_rdx_code(0) + mov_r8_code(params_ptr) + mov_r9_code(exception_ptr) + call_rax_code())
}

/// A call of a one-argument Mono function: `mono_assembly_get_image(assembly)` stores its
/// result at `ret_val_ptr`.
pub open spec fn one_arg_stub(
    thread_attach_fn: usize,
    function: usize,
    root_domain: usize,
    arg1: usize,
    ret_val_ptr: usize,
) -> Seq<u8> {
    framed(attach_code(thread_attach_fn, root_domain) + mov_rax_code(function) + mov_rcx_code(arg1)
        + call_rax_code() + mov_rax_to_code(ret_val_ptr))
}

/// `mono_image_close(image)`, which returns nothing.
pub open spec fn close_image_stub(
    thread_attach_fn: usize,
    image_close_fn: usize,
    root_domain: usize,
    image_ptr: usize,
) -> Seq<u8> {
    framed(attach_code(thread_attach_fn, root_domain) + mov_rax_code(image_close_fn) + mov_rcx_code(
        image_ptr,
    ) + call_rax_code())
}

fn attach(a: &mut Assembler, thread_attach_fn: usize, root_domain: usize)
    ensures
        final(a)@ == old(a)@ + attach_code(thread_attach_fn, root_domain),
{
    a.mov_rax(thread_attach_fn);
    a.mov_rcx(root_domain);
    a.call_rax();
    assert(a@ =~= old(a)@ + attach_code(thread_attach_fn, root_domain));
}

/// The stub of `Injector::get_root_domain`.
pub fn get_root_domain_code(get_root_domain_fn: usize, ret_val_ptr: usize) -> (r: Assembler)
    ensures
        r@ == root_domain_stub(get_root_domain_fn, ret_val_ptr),
{
    let mut a = Assembler::new();
    a.sub_rsp(SHADOW_SPACE);
    a.mov_rax(get_root_domain_fn);
    a.call_rax();
    a.mov_rax_to(ret_val_ptr);
    a.add_rsp(SHADOW_SPACE);
    a.ret();
    assert(a@ =~= root_domain_stub(get_root_domain_fn, ret_val_ptr));
    a
}

/// The stub of `Injector::create_mono_image_from_data`: the image is made from a copy of the
/// data, so that the assembly has its own image containing the running code.
pub fn create_image_from_data_code(
    thread_attach_fn: usize,
    image_open_fn: usize,
    root_domain: usize,
    data_ptr: usize,
    data_len: usize,
    status_ptr: usize,
    ret_val_ptr: usize,
) -> (r: Assembler)
    ensures
        r@ == image_from_data_stub(
            thread_attach_fn,
            image_open_fn,
            root_domain,
            data_ptr,
            data_len,
            status_ptr,
            ret_val_ptr,
        ),
{
    let mut a = Assembler::new();
    a.sub_rsp(SHADOW_SPACE);
    attach(&mut a, thread_attach_fn, root_domain);
    a.mov_rax(image_open_fn);
    a.mov_rcx(data_ptr);
    a.mov_rdx(data_len);
    a.mov_r8(1);
    a.mov_r9(status_ptr);
    a.call_rax();
    a.mov_rax_to(ret_val_ptr);
    a.add_rsp(SHADOW_SPACE);
    a.ret();
    assert(a@ =~= image_from_data_stub(
        thread_attach_fn,
        image_open_fn,
        root_domain,
        data_ptr,
        data_len,
        status_ptr,
        ret_val_ptr,
    ));
    a
}

/// The stub of `Injector::create_mono_assembly_from_image`.
pub fn create_assembly_from_image_code(
    thread_attach_fn: usize,
    load_from_fn: usize,
    root_domain: usize,
    image_ptr: usize,
    name_ptr: usize,
    status_ptr: usize,
    ret_val_ptr: usize,
) -> (r: Assembler)
    ensures
        r@ == assembly_from_image_stub(
            thread_attach_fn,
            load_from_fn,
            root_domain,
            image_ptr,
            name_ptr,
            status_ptr,
            ret_val_ptr,
        ),
{
    let mut a = Assembler::new();
    a.sub_rsp(SHADOW_SPACE);
    attach(&mut a, thread_attach_fn, root_domain);
    a.mov_rax(load_from_fn);
    a.mov_rcx(image_ptr);
    a.mov_rdx(name_ptr);
    a.mov_r8(status_ptr);
    a.call_rax();
    a.mov_rax_to(ret_val_ptr);
    a.add_rsp(SHADOW_SPACE);
    a.ret();
    assert(a@ =~= assembly_from_image_stub(
        thread_attach_fn,
        load_from_fn,
        root_domain,
        image_ptr,
        name_ptr,
        status_ptr,
        ret_val_ptr,
    ));
    a
}

/// The stub of a three-argument call whose result is kept: `Injector::get_class_from_image`
/// (image, namespace, class name), `Injector::get_method_from_class` (class, method name,
/// parameter count) and `Injector::create_mono_string` (domain, text, length).
pub fn three_arg_call_code(
    thread_attach_fn: usize,
    function: usize,
    root_domain: usize,
    arg1: usize,
    arg2: usize,
    arg3: usize,
    ret_val_ptr: usize,
) -> (r: Assembler)
    ensures
        r@ == three_arg_stub(thread_attach_fn, function, root_domain, arg1, arg2, arg3, ret_val_ptr),
{
    let mut a = Assembler::new();
    a.sub_rsp(SHADOW_SPACE);
    attach(&mut a, thread_attach_fn, root_domain);
    a.mov_rax(function);
    a.mov_rcx(arg1);
    a.mov_rdx(arg2);
    a.mov_r8(arg3);
    a.call_rax();
    a.mov_rax_to(ret_val_ptr);
    a.add_rsp(SHADOW_SPACE);
    a.ret();
    assert(a@ =~= three_arg_stub(
        thread_attach_fn,
        function,
        root_domain,
        arg1,
        arg2,
        arg3,
        ret_val_ptr,
    ));
    a
}

/// The stub of `Injector::runtime_invoke`: no `this` object, the parameters at `params_ptr`
/// (0 when there are none).
pub fn runtime_invoke_code(
    thread_attach_fn: usize,
    invoke_fn: usize,
    root_domain: usize,
    method_ptr: usize,
    params_ptr: Option<usize>,
    exception_ptr: usize,
) -> (r: Assembler)
    ensures
        r@ == runtime_invoke_stub(
            thread_attach_fn,
            invoke_fn,
            root_domain,
            method_ptr,
            match params_ptr {
                Some(p) => p,
                None => 0,
            },
            exception_ptr,
        ),
{
    let params: usize = match params_ptr {
        Some(p) => p,
        None => 0,
    };
    let mut a = Assembler::new();
    a.sub_rsp(SHADOW_SPACE);
    attach(&mut a, thread_attach_fn, root_domain);
    a.mov_rax(invoke_fn);
    a.mov_rcx(method_ptr);
    a.mov_rdx(0);
    a.mov_r8(params);
    a.mov_r9(exception_ptr);
    a.call_rax();
    a.add_rsp(SHADOW_SPACE);
    a.ret();
    assert(a@ =~= runtime_invoke_stub(
        thread_attach_fn,
        invoke_fn,
        root_domain,
        method_ptr,
        params,
        exception_ptr,
    ));
    a
}

/// The stub of `Injector::get_image_from_assembly`.
pub fn image_from_assembly_code(
    thread_attach_fn: usize,
    get_image_fn: usize,
    root_domain: usize,
    assembly_ptr: usize,
    ret_val_ptr: usize,
) -> (r: Assembler)
    ensures
        r@ == one_arg_stub(thread_attach_fn, get_image_fn, root_domain, assembly_ptr, ret_val_ptr),
{
    let mut a = Assembler::new();
    a.sub_rsp(SHADOW_SPACE);
    attach(&mut a, thread_attach_fn, root_domain);
    a.mov_rax(get_image_fn);
    a.mov_rcx(assembly_ptr);
    a.call_rax();
    a.mov_rax_to(ret_val_ptr);
    a.add_rsp(SHADOW_SPACE);
    a.ret();
    assert(a@ =~= one_arg_stub(thread_attach_fn, get_image_fn, root_domain, assembly_ptr, ret_val_ptr));
    a
}

/// The stub of `Injector::close_load_image`.
pub fn close_image_code(
    thread_attach_fn: usize,
    image_close_fn: usize,
    root_domain: usize,
    image_ptr: usize,
) -> (r: Assembler)
    ensures
        r@ == close_image_stub(thread_attach_fn, image_close_fn, root_domain, image_ptr),
{
    let mut a = Assembler::new();
    a.sub_rsp(SHADOW_SPACE);
    attach(&mut a, thread_attach_fn, root_domain);
    a.mov_rax(image_close_fn);
    a.mov_rcx(image_ptr);
    a.call_rax();
    a.add_rsp(SHADOW_SPACE);
    a.ret();
    assert(a@ =~= close_image_stub(thread_attach_fn, image_close_fn, root_domain, image_ptr));
    a
}

/// Every stub reserves the shadow space first (`sub rsp, 0x28`), releases it last
/// (`add rsp, 0x28`) and then returns, so that the stack pointer is the same before and after
/// it runs.
pub proof fn lemma_stub_frame(body: Seq<u8>)
    ensures
        sub_rsp_code(SHADOW_SPACE) == seq![0x48u8, 0x83u8, 0xECu8, 0x28u8],
        add_rsp_code(SHADOW_SPACE) == seq![0x48u8, 0x83u8, 0xC4u8, 0x28u8],
        framed(body).take(sub_rsp_code(SHADOW_SPACE).len() as int) == sub_rsp_code(SHADOW_SPACE),
        framed(body).skip(framed(body).len() - add_rsp_code(SHADOW_SPACE).len() - 1)
            == add_rsp_code(SHADOW_SPACE) + ret_code(),
        framed(body).last() == 0xC3u8,
{
    let f = framed(body);
    assert(f.take(sub_rsp_code(SHADOW_SPACE).len() as int) =~= sub_rsp_code(SHADOW_SPACE));
    assert(f.skip(f.len() - add_rsp_code(SHADOW_SPACE).len() - 1) =~= add_rsp_code(SHADOW_SPACE)
        + ret_code());
}

/// The call that registers the thread with Mono, `mono_thread_attach(root_domain)`, made first
/// by every stub but the root-domain one, inside the shadow space.
pub open spec fn attach_call(thread_attach_fn: usize, root_domain: usize) -> Event {
    Event::Call {
        target: Value::Imm(thread_attach_fn),
        rcx: Value::Imm(root_domain),
        rdx: Value::Unknown,
        r8: Value::Unknown,
        r9: Value::Unknown,
        reserved: SHADOW_SPACE as int,
    }
}

/// The stub of `mono_get_root_domain` calls it with no argument inside the shadow space, stores
/// what it returns at `ret_val_ptr`, releases the shadow space and returns.
pub proof fn lemma_root_domain_stub_calls(
    get_root_domain_fn: usize,
    ret_val_ptr: usize,
)
    ensures
        code_does(
            root_domain_stub(get_root_domain_fn, ret_val_ptr),
            seq![
                Event::Call {
                    target: Value::Imm(get_root_domain_fn),
                    rcx: Value::Unknown,
                    rdx: Value::Unknown,
                    r8: Value::Unknown,
                    r9: Value::Unknown,
                    reserved: SHADOW_SPACE as int,
                },
                Event::Store { address: ret_val_ptr, value: Value::ReturnOf(0) },
                Event::Return { reserved: 0 },
            ],
        ),
{
    let p = seq![
        Instr::SubRsp(SHADOW_SPACE),
        Instr::MovRax(get_root_domain_fn),
        Instr::CallRax,
        Instr::MovRaxTo(ret_val_ptr),
        Instr::AddRsp(SHADOW_SPACE),
        Instr::Ret,
    ];
    reveal_with_fuel(encode_upto, 7);
    reveal_with_fuel(machine_after, 7);
    reveal_with_fuel(trace_upto, 7);
    assert(encode_all(p) =~= root_domain_stub(get_root_domain_fn, ret_val_ptr));
    assert(trace(p) =~= seq![
        Event::Call {
            target: Value::Imm(get_root_domain_fn),
            rcx: Value::Unknown,
            rdx: Value::Unknown,
            r8: Value::Unknown,
            r9: Value::Unknown,
            reserved: SHADOW_SPACE as int,
        },
        Event::Store { address: ret_val_ptr, value: Value::ReturnOf(0) },
        Event::Return { reserved: 0 },
    ]);
}

/// The stub of `mono_image_open_from_data` registers the thread, then calls
/// `mono_image_open_from_data(data, data_len, need_copy, status)` with rcx the data, rdx its
/// length, r8 1 (Mono copies the data) and r9 the status slot, and stores the image it returns
/// at `ret_val_ptr`; both calls are made inside the shadow space, released before the return.
pub proof fn lemma_image_from_data_stub_calls(
    thread_attach_fn: usize,
    image_open_fn: usize,
    root_domain: usize,
    data_ptr: usize,
    data_len: usize,
    status_ptr: usize,
    ret_val_ptr: usize,
)
    ensures
        code_does(
            image_from_data_stub(thread_attach_fn, image_open_fn, root_domain, data_ptr, data_len, status_ptr, ret_val_ptr),
            seq![
                attach_call(thread_attach_fn, root_domain),
                Event::Call {
                    target: Value::Imm(image_open_fn),
                    rcx: Value::Imm(data_ptr),
                    rdx: Value::Imm(data_len),
                    r8: Value::Imm(1),
                    r9: Value::Imm(status_ptr),
                    reserved: SHADOW_SPACE as int,
                },
                Event::Store { address: ret_val_ptr, value: Value::ReturnOf(1) },
                Event::Return { reserved: 0 },
            ],
        ),
{
    let p = seq![
        Instr::SubRsp(SHADOW_SPACE),
        Instr::MovRax(thread_attach_fn),
        Instr::MovRcx(root_domain),
        Instr::CallRax,
        Instr::MovRax(image_open_fn),
        Instr::MovRcx(data_ptr),
        Instr::MovRdx(data_len),
        Instr::MovR8(1),
        Instr::MovR9(status_ptr),
        Instr::CallRax,
        Instr::MovRaxTo(ret_val_ptr),
        Instr::AddRsp(SHADOW_SPACE),
        Instr::Ret,
    ];
    reveal_with_fuel(encode_upto, 14);
    reveal_with_fuel(machine_after, 14);
    reveal_with_fuel(trace_upto, 14);
    assert(encode_all(p) =~= image_from_data_stub(thread_attach_fn, image_open_fn, root_domain, data_ptr, data_len, status_ptr, ret_val_ptr));
    assert(trace(p) =~= seq![
        attach_call(thread_attach_fn, root_domain),
        Event::Call {
            target: Value::Imm(image_open_fn),
            rcx: Value::Imm(data_ptr),
            rdx: Value::Imm(data_len),
            r8: Value::Imm(1),
            r9: Value::Imm(status_ptr),
            reserved: SHADOW_SPACE as int,
        },
        Event::Store { address: ret_val_ptr, value: Value::ReturnOf(1) },
        Event::Return { reserved: 0 },
    ]);
}

/// The stub of `mono_assembly_load_from` registers the thread, then calls
/// `mono_assembly_load_from(image, name, status)` with rcx the image, rdx the name and r8 the
/// status slot, and stores the assembly it returns at `ret_val_ptr`; both calls are made inside
/// the shadow space, released before the return.
pub proof fn lemma_assembly_from_image_stub_calls(
    thread_attach_fn: usize,
    load_from_fn: usize,
    root_domain: usize,
    image_ptr: usize,
    name_ptr: usize,
    status_ptr: usize,
    ret_val_ptr: usize,
)
    ensures
        code_does(
            assembly_from_image_stub(thread_attach_fn, load_from_fn, root_domain, image_ptr, name_ptr, status_ptr, ret_val_ptr),
            seq![
                attach_call(thread_attach_fn, root_domain),
                Event::Call {
                    target: Value::Imm(load_from_fn),
                    rcx: Value::Imm(image_ptr),
                    rdx: Value::Imm(name_ptr),
                    r8: Value::Imm(status_ptr),
                    r9: Value::Unknown,
                    reserved: SHADOW_SPACE as int,
                },
                Event::Store { address: ret_val_ptr, value: Value::ReturnOf(1) },
                Event::Return { reserved: 0 },
            ],
        ),
{
    let p = seq![
        Instr::SubRsp(SHADOW_SPACE),
        Instr::MovRax(thread_attach_fn),
        Instr::MovRcx(root_domain),
        Instr::CallRax,
        Instr::MovRax(load_from_fn),
        Instr::MovRcx(image_ptr),
        Instr::MovRdx(name_ptr),
        Instr::MovR8(status_ptr),
        Instr::CallRax,
        Instr::MovRaxTo(ret_val_ptr),
        Instr::AddRsp(SHADOW_SPACE),
        Instr::Ret,
    ];
    reveal_with_fuel(encode_upto, 13);
    reveal_with_fuel(machine_after, 13);
    reveal_with_fuel(trace_upto, 13);
    assert(encode_all(p) =~= assembly_from_image_stub(thread_attach_fn, load_from_fn, root_domain, image_ptr, name_ptr, status_ptr, ret_val_ptr));
    assert(trace(p) =~= seq![
        attach_call(thread_attach_fn, root_domain),
        Event::Call {
            target: Value::Imm(load_from_fn),
            rcx: Value::Imm(image_ptr),
            rdx: Value::Imm(name_ptr),
            r8: Value::Imm(status_ptr),
            r9: Value::Unknown,
            reserved: SHADOW_SPACE as int,
        },
        Event::Store { address: ret_val_ptr, value: Value::ReturnOf(1) },
        Event::Return { reserved: 0 },
    ]);
}

/// A three-argument stub registers the thread, then calls `function(arg1, arg2, arg3)` with the
/// arguments in rcx, rdx and r8, in that order, and stores what it returns at `ret_val_ptr`;
/// both calls are made inside the shadow space, released before the return.
pub proof fn lemma_three_arg_stub_calls(
    thread_attach_fn: usize,
    function: usize,
    root_domain: usize,
    arg1: usize,
    arg2: usize,
    arg3: usize,
    ret_val_ptr: usize,
)
    ensures
        code_does(
            three_arg_stub(thread_attach_fn, function, root_domain, arg1, arg2, arg3, ret_val_ptr),
            seq![
                attach_call(thread_attach_fn, root_domain),
                Event::Call {
                    target: Value::Imm(function),
                    rcx: Value::Imm(arg1),
                    rdx: Value::Imm(arg2),
                    r8: Value::Imm(arg3),
                    r9: Value::Unknown,
                    reserved: SHADOW_SPACE as int,
                },
                Event::Store { address: ret_val_ptr, value: Value::ReturnOf(1) },
                Event::Return { reserved: 0 },
            ],
        ),
{
    let p = seq![
        Instr::SubRsp(SHADOW_SPACE),
        Instr::MovRax(thread_attach_fn),
        Instr::MovRcx(root_domain),
        Instr::CallRax,
        Instr::MovRax(function),
        Instr::MovRcx(arg1),
        Instr::MovRdx(arg2),
        Instr::MovR8(arg3),
        Instr::CallRax,
        Instr::MovRaxTo(ret_val_ptr),
        Instr::AddRsp(SHADOW_SPACE),
        Instr::Ret,
    ];
    reveal_with_fuel(encode_upto, 13);
    reveal_with_fuel(machine_after, 13);
    reveal_with_fuel(trace_upto, 13);
    assert(encode_all(p) =~= three_arg_stub(thread_attach_fn, function, root_domain, arg1, arg2, arg3, ret_val_ptr));
    assert(trace(p) =~= seq![
        attach_call(thread_attach_fn, root_domain),
        Event::Call {
            target: Value::Imm(function),
            rcx: Value::Imm(arg1),
            rdx: Value::Imm(arg2),
            r8: Value::Imm(arg3),
            r9: Value::Unknown,
            reserved: SHADOW_SPACE as int,
        },
        Event::Store { address: ret_val_ptr, value: Value::ReturnOf(1) },
        Event::Return { reserved: 0 },
    ]);
}

/// A one-argument stub registers the thread, then calls `function(arg1)` with the argument in
/// rcx, and stores what it returns at `ret_val_ptr`; both calls are made inside the shadow
/// space, released before the return.
pub proof fn lemma_one_arg_stub_calls(
    thread_attach_fn: usize,
    function: usize,
    root_domain: usize,
    arg1: usize,
    ret_val_ptr: usize,
)
    ensures
        code_does(
            one_arg_stub(thread_attach_fn, function, root_domain, arg1, ret_val_ptr),
            seq![
                attach_call(thread_attach_fn, root_domain),
                Event::Call {
                    target: Value::Imm(function),
                    rcx: Value::Imm(arg1),
                    rdx: Value::Unknown,
                    r8: Value::Unknown,
                    r9: Value::Unknown,
                    reserved: SHADOW_SPACE as int,
                },
                Event::Store { address: ret_val_ptr, value: Value::ReturnOf(1) },
                Event::Return { reserved: 0 },
            ],
        ),
{
    let p = seq![
        Instr::SubRsp(SHADOW_SPACE),
        Instr::MovRax(thread_attach_fn),
        Instr::MovRcx(root_domain),
        Instr::CallRax,
        Instr::MovRax(function),
        Instr::MovRcx(arg1),
        Instr::CallRax,
        Instr::MovRaxTo(ret_val_ptr),
        Instr::AddRsp(SHADOW_SPACE),
        Instr::Ret,
    ];
    reveal_with_fuel(encode_upto, 11);
    reveal_with_fuel(machine_after, 11);
    reveal_with_fuel(trace_upto, 11);
    assert(encode_all(p) =~= one_arg_stub(thread_attach_fn, function, root_domain, arg1, ret_val_ptr));
    assert(trace(p) =~= seq![
        attach_call(thread_attach_fn, root_domain),
        Event::Call {
            target: Value::Imm(function),
            rcx: Value::Imm(arg1),
            rdx: Value::Unknown,
            r8: Value::Unknown,
            r9: Value::Unknown,
            reserved: SHADOW_SPACE as int,
        },
        Event::Store { address: ret_val_ptr, value: Value::ReturnOf(1) },
        Event::Return { reserved: 0 },
    ]);
}

/// The stub of `mono_image_close` registers the thread, then calls `mono_image_close(image)`
/// with the image in rcx and stores nothing; both calls are made inside the shadow space,
/// released before the return.
pub proof fn lemma_close_image_stub_calls(
    thread_attach_fn: usize,
    image_close_fn: usize,
    root_domain: usize,
    image_ptr: usize,
)
    ensures
        code_does(
            close_image_stub(thread_attach_fn, image_close_fn, root_domain, image_ptr),
            seq![
                attach_call(thread_attach_fn, root_domain),
                Event::Call {
                    target: Value::Imm(image_close_fn),
                    rcx: Value::Imm(image_ptr),
                    rdx: Value::Unknown,
                    r8: Value::Unknown,
                    r9: Value::Unknown,
                    reserved: SHADOW_SPACE as int,
                },
                Event::Return { reserved: 0 },
            ],
        ),
{
    let p = seq![
        Instr::SubRsp(SHADOW_SPACE),
        Instr::MovRax(thread_attach_fn),
        Instr::MovRcx(root_domain),
        Instr::CallRax,
        Instr::MovRax(image_close_fn),
        Instr::MovRcx(image_ptr),
        Instr::CallRax,
        Instr::AddRsp(SHADOW_SPACE),
        Instr::Ret,
    ];
    reveal_with_fuel(encode_upto, 10);
    reveal_with_fuel(machine_after, 10);
    reveal_with_fuel(trace_upto, 10);
    assert(encode_all(p) =~= close_image_stub(thread_attach_fn, image_close_fn, root_domain, image_ptr));
    assert(trace(p) =~= seq![
        attach_call(thread_attach_fn, root_domain),
        Event::Call {
            target: Value::Imm(image_close_fn),
            rcx: Value::Imm(image_ptr),
            rdx: Value::Unknown,
            r8: Value::Unknown,
            r9: Value::Unknown,
            reserved: SHADOW_SPACE as int,
        },
        Event::Return { reserved: 0 },
    ]);
}

/// The stub of `mono_runtime_invoke` registers the thread, then calls
/// `mono_runtime_invoke(method, obj, params, exc)` in the x64 convention: rcx holds the method,
/// rdx 0 (no `this` object), r8 the parameters' address and r9 the exception slot; both calls
/// are made inside the shadow space, which is released before the stub returns.
pub proof fn lemma_runtime_invoke_stub_calls(
    thread_attach_fn: usize,
    invoke_fn: usize,
    root_domain: usize,
    method_ptr: usize,
    params_ptr: usize,
    exception_ptr: usize,
)
    ensures
        code_does(
            runtime_invoke_stub(thread_attach_fn, invoke_fn, root_domain, method_ptr, params_ptr, exception_ptr),
            seq![
                attach_call(thread_attach_fn, root_domain),
                Event::Call {
                    target: Value::Imm(invoke_fn),
                    rcx: Value::Imm(method_ptr),
                    rdx: Value::Imm(0),
                    r8: Value::Imm(params_ptr),
                    r9: Value::Imm(exception_ptr),
                    reserved: SHADOW_SPACE as int,
                },
                Event::Return { reserved: 0 },
            ],
        ),
{
    let p = seq![
        Instr::SubRsp(SHADOW_SPACE),
        Instr::MovRax(thread_attach_fn),
        Instr::MovRcx(root_domain),
        Instr::CallRax,
        Instr::MovRax(invoke_fn),
        Instr::MovRcx(method_ptr),
        Instr::MovRdx(0),
        Instr::MovR8(params_ptr),
        Instr::MovR9(exception_ptr),
        Instr::CallRax,
        Instr::AddRsp(SHADOW_SPACE),
        Instr::Ret,
    ];
    reveal_with_fuel(encode_upto, 13);
    reveal_with_fuel(machine_after, 13);
    reveal_with_fuel(trace_upto, 13);
    assert(encode_all(p) =~= runtime_invoke_stub(
        thread_attach_fn,
        invoke_fn,
        root_domain,
        method_ptr,
        params_ptr,
        exception_ptr,
    ));
    assert(trace(p) =~= seq![
attach_call(thread_attach_fn, root_domain),
Event::Call {
    target: Value::Imm(invoke_fn),
    rcx: Value::Imm(method_ptr),
    rdx: Value::Imm(0),
    r8: Value::Imm(params_ptr),
    r9: Value::Imm(exception_ptr),
    reserved: SHADOW_SPACE as int,
},
Event::Return { reserved: 0 },
    ]);
}

/// The bytes of a machine word, least significant first: `usize::to_le_bytes`, as written into
/// the target process for the parameters of `LoadDumper`.
pub fn word_to_le_bytes(value: usize) -> (r: Vec<u8>)
    ensures
        r@ == word_bytes(value),
{
    let mut r: Vec<u8> = Vec::new();
    push_word(&mut r, value);
    assert(r@ =~= word_bytes(value));
    r
}

/// A nul-terminated C string: the UTF-8 bytes of `s` followed by a zero byte.
pub fn c_string(s: &str) -> (r: Vec<u8>)
    ensures
        r@ == s.spec_bytes().push(0u8),
{
    let bytes = s.as_bytes();
    let mut r: Vec<u8> = Vec::new();
    let mut i: usize = 0;
    while i < bytes.len()
        invariant
            i <= bytes@.len(),
            bytes@ == s.spec_bytes(),
            r@ == bytes@.take(i as int),
        decreases bytes.len() - i,
    {
        r.push(bytes[i]);
        i = i + 1;
        assert(r@ =~= bytes@.take(i as int));
    }
    assert(bytes@.take(i as int) =~= bytes@);
    r.push(0u8);
    r
}

} // verus!
