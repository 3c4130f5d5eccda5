//! The order in which the injector drives the Mono runtime of the game: each step runs one stub
//! in the target process, and what the stub returns feeds the steps after it. The tracker is
//! loaded by calling `mtga_datacollector.Loader.Load()`; the dumper by calling
//! `mtga_datacollector.Loader.LoadDumper(dump_directory)`.

use vstd::prelude::*;

verus! {

/// What is injected.
#[derive(Debug, Clone, Copy, PartialEq, Eq, Structural)]
pub enum InjectTarget {
    Tracker,
    Dumper,
}

/// The step the injection is at: the stub whose result it waits for.
#[derive(Debug, Clone, Copy, PartialEq, Eq, Structural)]
pub enum InjectStep {
    RootDomain,
    Image,
    Assembly,
    CloseImage,
    AssemblyImage,
    Class,
    Method,
    DumpDirectory,
    Params,
    Invoke,
    Done,
}

/// What the injector does next in the target process.
#[derive(Debug, Clone, Copy, PartialEq, Eq)]
pub enum InjectAction {
    /// `mono_get_root_domain()`.
    GetRootDomain,
    /// `mono_image_open_from_data` of the collector assembly's bytes.
    CreateImageFromData { root_domain: usize },
    /// `mono_assembly_load_from` of the image.
    LoadAssemblyFromImage { root_domain: usize, image: usize },
    /// `mono_image_close` of the image the assembly was loaded from.
    CloseImage { root_domain: usize, image: usize },
    /// `mono_assembly_get_image` of the loaded assembly.
    GetImageFromAssembly { root_domain: usize, assembly: usize },
    /// `mono_class_from_name` of the loader class.
    GetClassFromImage { root_domain: usize, image: usize, namespace: &'static str, class_name: &'static str },
    /// `mono_class_get_method_from_name` of the entry point.
    GetMethodFromClass { root_domain: usize, class: usize, method_name: &'static str, param_count: u32 },
    /// `mono_string_new_len` of the dump directory's path.
    CreateDumpDirectoryString { root_domain: usize },
    /// Writes the invocation's parameters (the string's address) into the target process.
    WriteParams { string: usize },
    /// `mono_runtime_invoke` of the entry point.
    RuntimeInvoke { root_domain: usize, method: usize, params: Option<usize> },
    /// The injection is complete.
    Finished,
}

/// The namespace and class of the collector's loader.
pub const LOADER_NAMESPACE: &'static str = "mtga_datacollector";
pub const LOADER_CLASS: &'static str = "Loader";
/// The entry points of the tracker and of the dumper.
pub const TRACKER_ENTRY: &'static str = "Load";
pub const DUMPER_ENTRY: &'static str = "LoadDumper";

/// An injection in progress: what it injects, its step, and the results kept from earlier
/// steps.
#[derive(Debug, Clone, Copy, PartialEq, Eq, Structural)]
pub struct Injection {
    pub target: InjectTarget,
    pub step: InjectStep,
    pub root_domain: usize,
    pub image: usize,
    pub assembly: usize,
    pub assembly_image: usize,
    pub class: usize,
    pub method: usize,
}

/// The entry point's name and parameter count for the target.
pub open spec fn entry_point(target: InjectTarget) -> (Seq<char>, u32) {
    match target {
        InjectTarget::Tracker => (TRACKER_ENTRY@, 0),
        InjectTarget::Dumper => (DUMPER_ENTRY@, 1),
    }
}

/// One step of the injection: the state after the current stub returned `result`, and the
/// action to take next. The stubs run in order: root domain, image from the collector's bytes,
/// assembly from the image, closing the image, the assembly's own image, the loader class, the
/// entry point, then (for the dumper) the dump directory's string and the parameters holding
/// it, and at last the invocation.
pub open spec fn next_step(s: Injection, result: usize) -> (Injection, InjectAction) {
    match s.step {
        InjectStep::RootDomain => (
            Injection { step: InjectStep::Image, root_domain: result, ..s },
            InjectAction::CreateImageFromData { root_domain: result },
        ),
        InjectStep::Image => (
            Injection { step: InjectStep::Assembly, image: result, ..s },
            InjectAction::LoadAssemblyFromImage { root_domain: s.root_domain, image: result },
        ),
        InjectStep::Assembly => (
            Injection { step: InjectStep::CloseImage, assembly: result, ..s },
            InjectAction::CloseImage { root_domain: s.root_domain, image: s.image },
        ),
        InjectStep::CloseImage => (
            Injection { step: InjectStep::AssemblyImage, ..s },
            InjectAction::GetImageFromAssembly { root_domain: s.root_domain, assembly: s.assembly },
        ),
        InjectStep::AssemblyImage => (
            Injection { step: InjectStep::Class, assembly_image: result, ..s },
            InjectAction::GetClassFromImage {
                root_domain: s.root_domain,
                image: result,
                namespace: LOADER_NAMESPACE,
                class_name: LOADER_CLASS,
            },
        ),
        InjectStep::Class => (
            Injection { step: InjectStep::Method, class: result, ..s },
            InjectAction::GetMethodFromClass {
                root_domain: s.root_domain,
                class: result,
                method_name: if s.target == InjectTarget::Tracker { TRACKER_ENTRY } else { DUMPER_ENTRY },
                param_count: if s.target == InjectTarget::Tracker { 0 } else { 1 },
            },
        ),
        InjectStep::Method => if s.target == InjectTarget::Tracker {
            (
                Injection { step: InjectStep::Invoke, method: result, ..s },
                InjectAction::RuntimeInvoke { root_domain: s.root_domain, method: result, params: None },
            )
        } else {
            (
                Injection { step: InjectStep::DumpDirectory, method: result, ..s },
                InjectAction::CreateDumpDirectoryString { root_domain: s.root_domain },
            )
        },
        InjectStep::DumpDirectory => (
            Injection { step: InjectStep::Params, ..s },
            InjectAction::WriteParams { string: result },
        ),
        InjectStep::Params => (
            Injection { step: InjectStep::Invoke, ..s },
            InjectAction::RuntimeInvoke { root_domain: s.root_domain, method: s.method, params: Some(result) },
        ),
        InjectStep::Invoke => (Injection { step: InjectStep::Done, ..s }, InjectAction::Finished),
        InjectStep::Done => (s, InjectAction::Finished),
    }
}

impl Injection {
    /// A new injection of `target`, and its first action: getting the root domain.
    pub fn start(target: InjectTarget) -> (r: (Injection, InjectAction))
        ensures
            r.0 == (Injection {
                target,
                step: InjectStep::RootDomain,
                root_domain: 0,
                image: 0,
                assembly: 0,
                assembly_image: 0,
                class: 0,
                method: 0,
            }),
            r.1 == InjectAction::GetRootDomain,
    {
        (
            Injection {
                target,
                step: InjectStep::RootDomain,
                root_domain: 0,
                image: 0,
                assembly: 0,
                assembly_image: 0,
                class: 0,
                method: 0,
            },
            InjectAction::GetRootDomain,
        )
    }

    /// The current stub returned `result`: moves to the next step and gives its action.
    pub fn advance(&mut self, result: usize) -> (r: InjectAction)
        ensures
            (*final(self), r) == next_step(*old(self), result),
    {
        let s = *self;
        let (next, action) = match s.step {
            InjectStep::RootDomain => (
                Injection { step: InjectStep::Image, root_domain: result, ..s },
                InjectAction::CreateImageFromData { root_domain: result },
            ),
            InjectStep::Image => (
                Injection { step: InjectStep::Assembly, image: result, ..s },
                InjectAction::LoadAssemblyFromImage { root_domain: s.root_domain, image: result },
            ),
            InjectStep::Assembly => (
                Injection { step: InjectStep::CloseImage, assembly: result, ..s },
                InjectAction::CloseImage { root_domain: s.root_domain, image: s.image },
            ),
            InjectStep::CloseImage => (
                Injection { step: InjectStep::AssemblyImage, ..s },
                InjectAction::GetImageFromAssembly { root_domain: s.root_domain, assembly: s.assembly },
            ),
            InjectStep::AssemblyImage => (
                Injection { step: InjectStep::Class, assembly_image: result, ..s },
                InjectAction::GetClassFromImage {
                    root_domain: s.root_domain,
                    image: result,
                    namespace: LOADER_NAMESPACE,
                    class_name: LOADER_CLASS,
                },
            ),
            InjectStep::Class => {
                let tracker = s.target == InjectTarget::Tracker;
                (
                    Injection { step: InjectStep::Method, class: result, ..s },
                    InjectAction::GetMethodFromClass {
                        root_domain: s.root_domain,
                        class: result,
                        method_name: if tracker { TRACKER_ENTRY } else { DUMPER_ENTRY },
                        param_count: if tracker { 0 } else { 1 },
                    },
                )
            },
            InjectStep::Method => if s.target == InjectTarget::Tracker {
                (
                    Injection { step: InjectStep::Invoke, method: result, ..s },
                    InjectAction::RuntimeInvoke { root_domain: s.root_domain, method: result, params: None },
                )
            } else {
                (
                    Injection { step: InjectStep::DumpDirectory, method: result, ..s },
                    InjectAction::CreateDumpDirectoryString { root_domain: s.root_domain },
                )
            },
            InjectStep::DumpDirectory => (Injection { step: InjectStep::Params, ..s }, InjectAction::WriteParams { string: result }),
            InjectStep::Params => (
                Injection { step: InjectStep::Invoke, ..s },
                InjectAction::RuntimeInvoke { root_domain: s.root_domain, method: s.method, params: Some(result) },
            ),
            InjectStep::Invoke => (Injection { step: InjectStep::Done, ..s }, InjectAction::Finished),
            InjectStep::Done => (s, InjectAction::Finished),
        };
        *self = next;
        action
    }
}

/// The image closed after the assembly is loaded is the image the assembly was loaded from,
/// and the class is looked up in the assembly's own image.
pub proof fn lemma_images_in_order(target: InjectTarget, rd: usize, img: usize, loaded: usize, closed: usize, aimg: usize)
    ensures
        ({
            let s0 = Injection {
                target,
                step: InjectStep::RootDomain,
                root_domain: 0,
                image: 0,
                assembly: 0,
                assembly_image: 0,
                class: 0,
                method: 0,
            };
            let (s1, _) = next_step(s0, rd);
            let (s2, a2) = next_step(s1, img);
            let (s3, a3) = next_step(s2, loaded);
            let (s4, a4) = next_step(s3, closed);
            let (_, a5) = next_step(s4, aimg);
            &&& a2 == InjectAction::LoadAssemblyFromImage { root_domain: rd, image: img }
            &&& a3 == InjectAction::CloseImage { root_domain: rd, image: img }
            &&& a4 == InjectAction::GetImageFromAssembly { root_domain: rd, assembly: loaded }
            &&& a5 matches InjectAction::GetClassFromImage { root_domain, image, .. } && root_domain == rd && image == aimg
        }),
{
}

/// Every injection ends: after the invocation's result the injection is done, and a done
/// injection stays done.
pub proof fn lemma_injection_ends(s: Injection, result: usize)
    requires
        s.step == InjectStep::Invoke || s.step == InjectStep::Done,
    ensures
        next_step(s, result).0.step == InjectStep::Done,
        next_step(s, result).1 == InjectAction::Finished,
{
}

} // verus!
