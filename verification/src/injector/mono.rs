//! The Mono runtime functions the injector calls inside the game process, and how they and the
//! Mono module itself are found among what the process has loaded.

use vstd::prelude::*;
use crate::injector::error::InjectError;
use crate::text::{copy_str, str_equal, str_starts_with};

verus! {

/// The Mono runtime functions the injector needs.
#[derive(Debug, Clone, Copy, PartialEq, Eq, Structural)]
pub enum RequiredFunction {
    MonoGetRootDomain,
    MonoThreadAttach,
    MonoImageOpenFromData,
    MonoAssemblyLoadFrom,
    MonoClassFromName,
    MonoClassGetMethodFromName,
    MonoRuntimeInvoke,
    MonoAssemblyGetImage,
    MonoImageClose,
    MonoStringNewLen,
}

/// The number of required functions.
pub const REQUIRED_FUNCTION_COUNT: usize = 10;

/// The exported symbol name of each required function.
pub open spec fn required_function_name(f: RequiredFunction) -> Seq<char> {
    match f {
        RequiredFunction::MonoGetRootDomain => "mono_get_root_domain"@,
        RequiredFunction::MonoThreadAttach => "mono_thread_attach"@,
        RequiredFunction::MonoImageOpenFromData => "mono_image_open_from_data"@,
        RequiredFunction::MonoAssemblyLoadFrom => "mono_assembly_load_from"@,
        RequiredFunction::MonoClassFromName => "mono_class_from_name"@,
        RequiredFunction::MonoClassGetMethodFromName => "mono_class_get_method_from_name"@,
        RequiredFunction::MonoRuntimeInvoke => "mono_runtime_invoke"@,
        RequiredFunction::MonoAssemblyGetImage => "mono_assembly_get_image"@,
        RequiredFunction::MonoImageClose => "mono_image_close"@,
        RequiredFunction::MonoStringNewLen => "mono_string_new_len"@,
    }
}

/// The required function an exported symbol name stands for, if any.
pub open spec fn required_function_from_name(name: Seq<char>) -> Option<RequiredFunction> {
    if name == "mono_get_root_domain"@ {
        Some(RequiredFunction::MonoGetRootDomain)
    } else if name == "mono_thread_attach"@ {
        Some(RequiredFunction::MonoThreadAttach)
    } else if name == "mono_image_open_from_data"@ {
        Some(RequiredFunction::MonoImageOpenFromData)
    } else if name == "mono_assembly_load_from"@ {
        Some(RequiredFunction::MonoAssemblyLoadFrom)
    } else if name == "mono_class_from_name"@ {
        Some(RequiredFunction::MonoClassFromName)
    } else if name == "mono_class_get_method_from_name"@ {
        Some(RequiredFunction::MonoClassGetMethodFromName)
    } else if name == "mono_runtime_invoke"@ {
        Some(RequiredFunction::MonoRuntimeInvoke)
    } else if name == "mono_assembly_get_image"@ {
        Some(RequiredFunction::MonoAssemblyGetImage)
    } else if name == "mono_image_close"@ {
        Some(RequiredFunction::MonoImageClose)
    } else if name == "mono_string_new_len"@ {
        Some(RequiredFunction::MonoStringNewLen)
    } else {
        None
    }
}

/// The slot of each required function in a `MonoFunctions` table.
pub open spec fn slot_of(f: RequiredFunction) -> int {
    match f {
        RequiredFunction::MonoGetRootDomain => 0,
        RequiredFunction::MonoThreadAttach => 1,
        RequiredFunction::MonoImageOpenFromData => 2,
        RequiredFunction::MonoAssemblyLoadFrom => 3,
        RequiredFunction::MonoClassFromName => 4,
        RequiredFunction::MonoClassGetMethodFromName => 5,
        RequiredFunction::MonoRuntimeInvoke => 6,
        RequiredFunction::MonoAssemblyGetImage => 7,
        RequiredFunction::MonoImageClose => 8,
        RequiredFunction::MonoStringNewLen => 9,
    }
}

impl RequiredFunction {
    /// Matches an exported symbol name to the required function it stands for.
    pub fn try_from_name(value: &str) -> (r: Result<RequiredFunction, &'static str>)
        ensures
            r matches Ok(f) ==> required_function_from_name(value@) == Some(f),
            r is Err ==> required_function_from_name(value@) is None,
    {
        if str_equal(value, "mono_get_root_domain") {
            Ok(RequiredFunction::MonoGetRootDomain)
        } else if str_equal(value, "mono_thread_attach") {
            Ok(RequiredFunction::MonoThreadAttach)
        } else if str_equal(value, "mono_image_open_from_data") {
            Ok(RequiredFunction::MonoImageOpenFromData)
        } else if str_equal(value, "mono_assembly_load_from") {
            Ok(RequiredFunction::MonoAssemblyLoadFrom)
        } else if str_equal(value, "mono_class_from_name") {
            Ok(RequiredFunction::MonoClassFromName)
        } else if str_equal(value, "mono_class_get_method_from_name") {
            Ok(RequiredFunction::MonoClassGetMethodFromName)
        } else if str_equal(value, "mono_runtime_invoke") {
            Ok(RequiredFunction::MonoRuntimeInvoke)
        } else if str_equal(value, "mono_assembly_get_image") {
            Ok(RequiredFunction::MonoAssemblyGetImage)
        } else if str_equal(value, "mono_image_close") {
            Ok(RequiredFunction::MonoImageClose)
        } else if str_equal(value, "mono_string_new_len") {
            Ok(RequiredFunction::MonoStringNewLen)
        } else {
            Err("Could not match function to any of the required ones")
        }
    }

    /// The exported symbol name of this function.
    pub fn name(&self) -> (r: &'static str)
        ensures
            r@ == required_function_name(*self),
    {
        match self {
            RequiredFunction::MonoGetRootDomain => "mono_get_root_domain",
            RequiredFunction::MonoThreadAttach => "mono_thread_attach",
            RequiredFunction::MonoImageOpenFromData => "mono_image_open_from_data",
            RequiredFunction::MonoAssemblyLoadFrom => "mono_assembly_load_from",
            RequiredFunction::MonoClassFromName => "mono_class_from_name",
            RequiredFunction::MonoClassGetMethodFromName => "mono_class_get_method_from_name",
            RequiredFunction::MonoRuntimeInvoke => "mono_runtime_invoke",
            RequiredFunction::MonoAssemblyGetImage => "mono_assembly_get_image",
            RequiredFunction::MonoImageClose => "mono_image_close",
            RequiredFunction::MonoStringNewLen => "mono_string_new_len",
        }
    }

    fn slot(&self) -> (r: usize)
        ensures
            r == slot_of(*self),
            r < REQUIRED_FUNCTION_COUNT,
    {
        match self {
            RequiredFunction::MonoGetRootDomain => 0,
            RequiredFunction::MonoThreadAttach => 1,
            RequiredFunction::MonoImageOpenFromData => 2,
            RequiredFunction::MonoAssemblyLoadFrom => 3,
            RequiredFunction::MonoClassFromName => 4,
            RequiredFunction::MonoClassGetMethodFromName => 5,
            RequiredFunction::MonoRuntimeInvoke => 6,
            RequiredFunction::MonoAssemblyGetImage => 7,
            RequiredFunction::MonoImageClose => 8,
            RequiredFunction::MonoStringNewLen => 9,
        }
    }
}

/// Each required function's symbol name stands for that function, and for no other.
pub proof fn lemma_name_round_trip(f: RequiredFunction)
    ensures
        required_function_from_name(required_function_name(f)) == Some(f),
{
    reveal_strlit("mono_get_root_domain");
    reveal_strlit("mono_thread_attach");
    reveal_strlit("mono_image_open_from_data");
    reveal_strlit("mono_assembly_load_from");
    reveal_strlit("mono_class_from_name");
    reveal_strlit("mono_class_get_method_from_name");
    reveal_strlit("mono_runtime_invoke");
    reveal_strlit("mono_assembly_get_image");
    reveal_strlit("mono_image_close");
    reveal_strlit("mono_string_new_len");
    assert("mono_get_root_domain"@.len() == 20);
    assert("mono_thread_attach"@.len() == 18);
    assert("mono_image_open_from_data"@.len() == 25);
    assert("mono_assembly_load_from"@.len() == 23);
    assert("mono_class_from_name"@.len() == 20);
    assert("mono_class_get_method_from_name"@.len() == 31);
    assert("mono_runtime_invoke"@.len() == 19);
    assert("mono_assembly_get_image"@.len() == 23);
    assert("mono_image_close"@.len() == 16);
    assert("mono_string_new_len"@.len() == 19);
    assert("mono_class_from_name"@[5] != "mono_get_root_domain"@[5]);
    assert("mono_assembly_get_image"@[14] != "mono_assembly_load_from"@[14]);
    assert("mono_string_new_len"@[5] != "mono_runtime_invoke"@[5]);
}

/// A function exported by a module loaded in the target process.
#[derive(Debug)]
pub struct ExportedFunction {
    pub ordinal: u32,
    pub name: String,
    pub address: usize,
}

impl ExportedFunction {
    /// The exported symbol name.
    pub fn name(&self) -> (r: &str)
        ensures
            r@ == self.name@,
    {
        self.name.as_str()
    }

    /// The address of the function in the target process.
    pub fn address(&self) -> (r: usize)
        ensures
            r == self.address,
    {
        self.address
    }
}

/// A module loaded in the target process.
pub struct Module {
    pub name: String,
    pub load_address: usize,
}

impl Module {
    /// The module's file name.
    pub fn name(&self) -> (r: &str)
        ensures
            r@ == self.name@,
    {
        self.name.as_str()
    }
}

/// The address of the first export, among `exports`, whose name stands for `f`.
pub open spec fn first_export_for(exports: Seq<ExportedFunction>, f: RequiredFunction) -> Option<usize>
    decreases exports.len(),
{
    if exports.len() == 0 {
        None
    } else {
        let earlier = first_export_for(exports.drop_last(), f);
        if earlier is Some {
            earlier
        } else if required_function_from_name(exports.last().name@) == Some(f) {
            Some(exports.last().address)
        } else {
            None
        }
    }
}

/// Whether the module is the Mono runtime: its name begins with `mono-`.
pub open spec fn is_mono_module(m: Module) -> bool {
    "mono-"@.is_prefix_of(m.name@)
}

/// The Mono runtime among the modules of the target process: the first module whose name
/// begins with `mono-`.
pub fn find_mono_module(modules: &[Module]) -> (r: Result<&Module, InjectError>)
    ensures
        match r {
            Ok(m) => exists|i: int| 0 <= i < modules@.len() && *m == modules@[i] && is_mono_module(modules@[i])
                && forall|j: int| 0 <= j < i ==> !is_mono_module(#[trigger] modules@[j]),
            Err(e) => {
                &&& forall|j: int| 0 <= j < modules@.len() ==> !is_mono_module(#[trigger] modules@[j])
                &&& e matches InjectError::CustomError(m)
                &&& m@ == "Could not find the mono module"@
            },
        },
{
    let mut i: usize = 0;
    while i < modules.len()
        invariant
            i <= modules@.len(),
            forall|j: int| 0 <= j < i ==> !is_mono_module(#[trigger] modules@[j]),
        decreases modules.len() - i,
    {
        if str_starts_with(modules[i].name(), "mono-") {
            return Ok(&modules[i]);
        }
        i = i + 1;
    }
    Err(InjectError::CustomError(copy_str("Could not find the mono module")))
}

/// The name of the game's executable.
pub const GAME_EXECUTABLE: &'static str = "MTGA.exe";

/// The game among the processes, by their executable names: the first process named
/// `MTGA.exe`.
pub fn find_game_process(process_names: &[String]) -> (r: Result<usize, InjectError>)
    ensures
        match r {
            Ok(i) => i < process_names@.len() && process_names@[i as int]@ == GAME_EXECUTABLE@ && forall|j: int|
                0 <= j < i ==> #[trigger] process_names@[j]@ != GAME_EXECUTABLE@,
            Err(e) => {
                &&& forall|j: int| 0 <= j < process_names@.len() ==> #[trigger] process_names@[j]@ != GAME_EXECUTABLE@
                &&& e matches InjectError::CustomError(m)
                &&& m@ == "Could not find MTGA.exe"@
            },
        },
{
    let mut i: usize = 0;
    while i < process_names.len()
        invariant
            i <= process_names@.len(),
            forall|j: int| 0 <= j < i ==> #[trigger] process_names@[j]@ != GAME_EXECUTABLE@,
        decreases process_names.len() - i,
    {
        if str_equal(process_names[i].as_str(), GAME_EXECUTABLE) {
            return Ok(i);
        }
        i = i + 1;
    }
    Err(InjectError::CustomError(copy_str("Could not find MTGA.exe")))
}

/// The addresses of the required functions found in the Mono module.
pub struct MonoFunctions {
    slots: Vec<Option<usize>>,
}

impl MonoFunctions {
    /// The address found for `f`, if any.
    pub closed spec fn spec_get(&self, f: RequiredFunction) -> Option<usize> {
        self.slots@[slot_of(f)]
    }

    /// Well-formed: one slot per required function.
    pub closed spec fn wf(&self) -> bool {
        self.slots@.len() == REQUIRED_FUNCTION_COUNT
    }

    /// Collects the required functions among the exports of the Mono module. When several
    /// exports stand for one function, the first one is kept.
    pub fn find(exports: &[ExportedFunction]) -> (r: MonoFunctions)
        ensures
            r.wf(),
            forall|f: RequiredFunction| #[trigger] r.spec_get(f) == first_export_for(exports@, f),
    {
        let mut slots: Vec<Option<usize>> = Vec::new();
        let mut k: usize = 0;
        while k < REQUIRED_FUNCTION_COUNT
            invariant
                k <= REQUIRED_FUNCTION_COUNT,
                slots@.len() == k,
                forall|j: int| 0 <= j < k ==> slots@[j] is None,
            decreases REQUIRED_FUNCTION_COUNT - k,
        {
            slots.push(None);
            k = k + 1;
        }
        let mut i: usize = 0;
        while i < exports.len()
            invariant
                i <= exports.len(),
                slots@.len() == REQUIRED_FUNCTION_COUNT,
                forall|f: RequiredFunction|
                    #[trigger] slots@[slot_of(f)] == first_export_for(exports@.take(i as int), f),
            decreases exports.len() - i,
        {
            let ghost before = slots@;
            proof {
                assert(exports@.take(i + 1).drop_last() =~= exports@.take(i as int));
            }
            match RequiredFunction::try_from_name(exports[i].name()) {
                Ok(f) => {
                    let s = f.slot();
                    if slots[s].is_none() {
                        slots[s] = Some(exports[i].address());
                    }
                    assert forall|g: RequiredFunction|
                        #[trigger] slots@[slot_of(g)] == first_export_for(exports@.take(i + 1), g) by {
                        if g != f {
                            assert(slot_of(g) != slot_of(f));
                        }
                    }
                },
                Err(_) => {},
            }
            i = i + 1;
        }
        assert(exports@.take(i as int) =~= exports@);
        MonoFunctions { slots }
    }

    /// The address found for `f`, if any.
    pub fn get(&self, f: RequiredFunction) -> (r: Option<usize>)
        requires
            self.wf(),
        ensures
            r == self.spec_get(f),
    {
        self.slots[f.slot()]
    }

    /// The address found for `f`, or the error that names the missing function.
    pub fn require(&self, f: RequiredFunction) -> (r: Result<usize, InjectError>)
        requires
            self.wf(),
        ensures
            r matches Ok(a) ==> self.spec_get(f) == Some(a),
            r is Err <==> self.spec_get(f) is None,
            r matches Err(e) ==> (e matches InjectError::CustomError(m) && m@ == missing_function_text(f)),
    {
        match self.get(f) {
            Some(a) => Ok(a),
            None => Err(InjectError::CustomError(missing_function_message(f))),
        }
    }
}

/// The name the error of a missing function gives it: its symbol name, but `get_root_domain`
/// for `mono_get_root_domain`.
pub open spec fn missing_function_label(f: RequiredFunction) -> Seq<char> {
    if f == RequiredFunction::MonoGetRootDomain {
        "get_root_domain"@
    } else {
        required_function_name(f)
    }
}

/// "Could not find <name>()": the error when a required function was not exported.
pub open spec fn missing_function_text(f: RequiredFunction) -> Seq<char> {
    "Could not find "@ + missing_function_label(f) + "()"@
}

/// The error message when a required function was not exported.
pub fn missing_function_message(f: RequiredFunction) -> (r: String)
    ensures
        r@ == missing_function_text(f),
{
    let mut s = String::from_str("Could not find ");
    match f {
        RequiredFunction::MonoGetRootDomain => s.append("get_root_domain"),
        _ => s.append(f.name()),
    }
    s.append("()");
    s
}

/// A later export whose name stands for the same function does not replace the first one.
pub proof fn lemma_first_export_wins(exports: Seq<ExportedFunction>, i: int, f: RequiredFunction)
    requires
        0 <= i < exports.len(),
        required_function_from_name(exports[i].name@) == Some(f),
        forall|j: int| 0 <= j < i ==> required_function_from_name(#[trigger] exports[j].name@) != Some(f),
    ensures
        first_export_for(exports, f) == Some(exports[i].address),
    decreases exports.len(),
{
    if i == exports.len() - 1 {
        lemma_no_export_for(exports.drop_last(), f);
    } else {
        lemma_first_export_wins(exports.drop_last(), i, f);
    }
}

/// No export stands for `f`: nothing is found for it.
pub proof fn lemma_no_export_for(exports: Seq<ExportedFunction>, f: RequiredFunction)
    requires
        forall|j: int| 0 <= j < exports.len() ==> required_function_from_name(#[trigger] exports[j].name@) != Some(f),
    ensures
        first_export_for(exports, f) is None,
    decreases exports.len(),
{
    if exports.len() > 0 {
        lemma_no_export_for(exports.drop_last(), f);
    }
}

} // verus!
