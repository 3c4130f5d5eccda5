use mtga_tracker::injector::protocol::{InjectAction, InjectStep, InjectTarget, Injection};

#[test]
fn the_tracker_is_loaded_then_invoked() {
    let (mut s, first) = Injection::start(InjectTarget::Tracker);
    assert_eq!(first, InjectAction::GetRootDomain);
    assert_eq!(s.advance(0x10), InjectAction::CreateImageFromData { root_domain: 0x10 });
    assert_eq!(s.advance(0x20), InjectAction::LoadAssemblyFromImage { root_domain: 0x10, image: 0x20 });
    assert_eq!(s.advance(0x30), InjectAction::CloseImage { root_domain: 0x10, image: 0x20 });
    assert_eq!(s.advance(0), InjectAction::GetImageFromAssembly { root_domain: 0x10, assembly: 0x30 });
    assert_eq!(
        s.advance(0x40),
        InjectAction::GetClassFromImage { root_domain: 0x10, image: 0x40, namespace: "mtga_datacollector", class_name: "Loader" }
    );
    assert_eq!(
        s.advance(0x50),
        InjectAction::GetMethodFromClass { root_domain: 0x10, class: 0x50, method_name: "Load", param_count: 0 }
    );
    assert_eq!(s.advance(0x60), InjectAction::RuntimeInvoke { root_domain: 0x10, method: 0x60, params: None });
    assert_eq!(s.advance(0), InjectAction::Finished);
    assert_eq!(s.step, InjectStep::Done);
    assert_eq!(s.advance(0), InjectAction::Finished);
}

#[test]
fn the_dumper_gets_the_dump_directory() {
    let (mut s, _) = Injection::start(InjectTarget::Dumper);
    for r in [0x10, 0x20, 0x30, 0, 0x40] {
        s.advance(r);
    }
    assert_eq!(
        s.advance(0x50),
        InjectAction::GetMethodFromClass { root_domain: 0x10, class: 0x50, method_name: "LoadDumper", param_count: 1 }
    );
    assert_eq!(s.advance(0x60), InjectAction::CreateDumpDirectoryString { root_domain: 0x10 });
    assert_eq!(s.advance(0x70), InjectAction::WriteParams { string: 0x70 });
    assert_eq!(s.advance(0x80), InjectAction::RuntimeInvoke { root_domain: 0x10, method: 0x60, params: Some(0x80) });
    assert_eq!(s.advance(0), InjectAction::Finished);
}
