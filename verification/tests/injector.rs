use mtga_tracker::injector::assembler::Assembler;
use mtga_tracker::injector::error::InjectError;
use mtga_tracker::injector::mono::{missing_function_message, ExportedFunction, MonoFunctions, RequiredFunction};
use mtga_tracker::injector::outcome::{assembly_load_outcome, assembly_name, image_open_outcome, invoke_outcome};
use mtga_tracker::injector::stubs::{c_string, close_image_code, get_root_domain_code, word_to_le_bytes, SHADOW_SPACE};
use mtga_tracker::injector::utils::{get_module_name, get_process_name, try_decode_name};

fn word(v: usize) -> Vec<u8> {
    v.to_le_bytes().to_vec()
}

#[test]
fn assembler_starts_empty() {
    let a = Assembler::new();
    assert!(a.data().is_empty());
}

#[test]
fn assembler_encodes_each_instruction() {
    let mut a = Assembler::new();
    a.sub_rsp(0x28);
    assert_eq!(a.data(), &[0x48, 0x83, 0xEC, 0x28]);

    let mut b = Assembler::new();
    b.mov_rax(0x1122_3344);
    b.mov_rcx(1);
    b.mov_rdx(2);
    b.mov_r8(3);
    b.mov_r9(4);
    b.call_rax();
    b.mov_rax_to(0xABCD);
    b.add_rsp(0x28);
    b.ret();
    let mut e = vec![0x48, 0xB8];
    e.extend(word(0x1122_3344));
    e.extend([0x48, 0xB9]);
    e.extend(word(1));
    e.extend([0x48, 0xBA]);
    e.extend(word(2));
    e.extend([0x49, 0xB8]);
    e.extend(word(3));
    e.extend([0x49, 0xB9]);
    e.extend(word(4));
    e.extend([0xFF, 0xD0]);
    e.extend([0x48, 0xA3]);
    e.extend(word(0xABCD));
    e.extend([0x48, 0x83, 0xC4, 0x28]);
    e.push(0xC3);
    assert_eq!(b.data(), e.as_slice());
}

#[test]
fn stack_adjustments_pick_the_short_or_long_immediate() {
    let mut a = Assembler::new();
    a.sub_rsp(0x7F);
    a.add_rsp(0x7F);
    assert_eq!(a.data(), &[0x48, 0x83, 0xEC, 0x7F, 0x48, 0x83, 0xC4, 0x7F]);

    let mut b = Assembler::new();
    b.sub_rsp(0x80);
    b.add_rsp(0x1000);
    assert_eq!(
        b.data(),
        &[0x48, 0x81, 0xEC, 0x80, 0x00, 0x00, 0x00, 0x48, 0x81, 0xC4, 0x00, 0x10, 0x00, 0x00]
    );

    let mut c = Assembler::new();
    c.sub_rsp(0x7FFF_FFFF);
    assert_eq!(c.data(), &[0x48, 0x81, 0xEC, 0xFF, 0xFF, 0xFF, 0x7F]);
}

#[test]
fn framed_call_stub_is_thirty_one_bytes() {
    let mut a = Assembler::new();
    a.sub_rsp(0x28);
    a.mov_rax(0x1000);
    a.call_rax();
    a.mov_rax_to(0x2000);
    a.add_rsp(0x28);
    a.ret();
    let expected: Vec<u8> = vec![
        0x48, 0x83, 0xEC, 0x28, 0x48, 0xB8, 0x00, 0x10, 0, 0, 0, 0, 0, 0, 0xFF, 0xD0, 0x48, 0xA3,
        0x00, 0x20, 0, 0, 0, 0, 0, 0, 0x48, 0x83, 0xC4, 0x28, 0xC3,
    ];
    assert_eq!(a.data(), expected.as_slice());
    assert_eq!(a.data().len(), 31);
}

#[test]
fn root_domain_stub_is_framed_by_shadow_space() {
    let code = get_root_domain_code(0x1000, 0x2000);
    let mut e = vec![0x48, 0x83, 0xEC, SHADOW_SPACE as u8];
    e.extend([0x48, 0xB8]);
    e.extend(word(0x1000));
    e.extend([0xFF, 0xD0]);
    e.extend([0x48, 0xA3]);
    e.extend(word(0x2000));
    e.extend([0x48, 0x83, 0xC4, SHADOW_SPACE as u8]);
    e.push(0xC3);
    assert_eq!(code.data(), e.as_slice());
}

#[test]
fn close_image_stub_attaches_then_calls() {
    let code = close_image_code(0x10, 0x20, 0x30, 0x40);
    let mut e = vec![0x48, 0x83, 0xEC, SHADOW_SPACE as u8];
    e.extend([0x48, 0xB8]);
    e.extend(word(0x10));
    e.extend([0x48, 0xB9]);
    e.extend(word(0x30));
    e.extend([0xFF, 0xD0]);
    e.extend([0x48, 0xB8]);
    e.extend(word(0x20));
    e.extend([0x48, 0xB9]);
    e.extend(word(0x40));
    e.extend([0xFF, 0xD0]);
    e.extend([0x48, 0x83, 0xC4, SHADOW_SPACE as u8]);
    e.push(0xC3);
    assert_eq!(code.data(), e.as_slice());
}

#[test]
fn words_are_little_endian() {
    assert_eq!(word_to_le_bytes(0x0102), word(0x0102));
    assert_eq!(word_to_le_bytes(0)[0], 0);
    assert_eq!(word_to_le_bytes(0x0102)[0], 2);
    assert_eq!(word_to_le_bytes(0x0102)[1], 1);
}

#[test]
fn c_strings_end_with_nul() {
    assert_eq!(c_string("abc"), vec![97, 98, 99, 0]);
    assert_eq!(c_string(""), vec![0]);
}

#[test]
fn required_function_names_round_trip() {
    let all = [
        RequiredFunction::MonoGetRootDomain,
        RequiredFunction::MonoThreadAttach,
        RequiredFunction::MonoImageOpenFromData,
        RequiredFunction::MonoAssemblyLoadFrom,
        RequiredFunction::MonoClassFromName,
        RequiredFunction::MonoClassGetMethodFromName,
        RequiredFunction::MonoRuntimeInvoke,
        RequiredFunction::MonoAssemblyGetImage,
        RequiredFunction::MonoImageClose,
        RequiredFunction::MonoStringNewLen,
    ];
    for f in all {
        assert_eq!(RequiredFunction::try_from_name(f.name()), Ok(f));
    }
    assert_eq!(RequiredFunction::MonoRuntimeInvoke.name(), "mono_runtime_invoke");
    assert_eq!(
        RequiredFunction::try_from_name("mono_jit_init"),
        Err("Could not match function to any of the required ones")
    );
}

#[test]
fn first_export_of_a_function_wins() {
    let exports = vec![
        ExportedFunction { ordinal: 1, name: String::from("mono_thread_attach"), address: 0x100 },
        ExportedFunction { ordinal: 2, name: String::from("something_else"), address: 0x200 },
        ExportedFunction { ordinal: 3, name: String::from("mono_thread_attach"), address: 0x300 },
        ExportedFunction { ordinal: 4, name: String::from("mono_image_close"), address: 0x400 },
    ];
    let found = MonoFunctions::find(&exports);
    assert_eq!(found.get(RequiredFunction::MonoThreadAttach), Some(0x100));
    assert_eq!(found.get(RequiredFunction::MonoImageClose), Some(0x400));
    assert_eq!(found.get(RequiredFunction::MonoRuntimeInvoke), None);
    assert_eq!(found.require(RequiredFunction::MonoImageClose).ok(), Some(0x400));
    match found.require(RequiredFunction::MonoRuntimeInvoke) {
        Err(InjectError::CustomError(m)) => assert_eq!(m, "Could not find mono_runtime_invoke()"),
        _ => panic!("a missing function is an error"),
    }
    assert_eq!(missing_function_message(RequiredFunction::MonoGetRootDomain), "Could not find get_root_domain()");
    assert_eq!(missing_function_message(RequiredFunction::MonoImageClose), "Could not find mono_image_close()");
}

#[test]
fn stub_outcomes() {
    assert_eq!(image_open_outcome(0, 0x55).ok(), Some(0x55));
    match image_open_outcome(3, 0x55) {
        Err(e) => assert_eq!(e.message(), "Could not create image from data!"),
        Ok(_) => panic!(),
    }
    assert_eq!(assembly_load_outcome(0, 7).ok(), Some(7));
    match assembly_load_outcome(12, 7) {
        Err(e) => assert_eq!(e.message(), "mono_assembly_load_from() returned with error: 12"),
        Ok(_) => panic!(),
    }
    assert!(invoke_outcome(0).is_ok());
    match invoke_outcome(1) {
        Err(e) => assert_eq!(e.message(), "Runtime invocation failed with an exception!"),
        Ok(_) => panic!(),
    }
    assert_eq!(assembly_name("abc-123"), "tracker-injector-abc-123\0");
}

#[test]
fn error_messages_carry_their_prefix() {
    assert_eq!(InjectError::io("denied").message(), "IO error: denied");
    assert_eq!(InjectError::int_conversion("too big").message(), "Int conversion error: too big");
    assert_eq!(InjectError::utf8_conversion("bad").message(), "Utf-8 string conversion error: bad");
    assert_eq!(InjectError::os("0x5").message(), "OS error: 0x5");
    assert_eq!(InjectError::custom("plain").message(), "plain");
}

#[test]
fn utf16_names_stop_at_nul() {
    let raw: Vec<u16> = "MTGA.exe".encode_utf16().chain([0u16, 65, 66]).collect();
    assert_eq!(get_process_name(&raw), "MTGA.exe");
    let raw: Vec<u16> = "mono-2.0-bdwgc.dll".encode_utf16().collect();
    assert_eq!(get_module_name(&raw), "mono-2.0-bdwgc.dll");
    let snowman: Vec<u16> = "\u{1F600}x".encode_utf16().chain([0u16]).collect();
    assert_eq!(try_decode_name(&snowman), Some(String::from("\u{1F600}x")));
    assert_eq!(try_decode_name(&[0xD800, 0x41, 0]), None);
}
