//! What the injector makes of the values a stub left in the target process.

use vstd::prelude::*;
use crate::injector::error::InjectError;
use crate::text::{decimal, decimal_string};

verus! {

/// After `mono_image_open_from_data`: a non-zero `MonoImageOpenStatus` (`MONO_IMAGE_OK` is 0)
/// is an error, else the image pointer is the result.
pub fn image_open_outcome(open_status: u32, image_ptr: usize) -> (r: Result<usize, InjectError>)
    ensures
        open_status == 0 ==> r == Ok::<usize, InjectError>(image_ptr),
        open_status != 0 ==> (r matches Err(InjectError::CustomError(m))
            && m@ == "Could not create image from data!"@),
{
    if open_status != 0 {
        Err(InjectError::CustomError(String::from_str("Could not create image from data!")))
    } else {
        Ok(image_ptr)
    }
}

/// After `mono_assembly_load_from`: a non-zero status is an error that reports it, else the
/// assembly pointer is the result.
pub fn assembly_load_outcome(open_status: u32, assembly_ptr: usize) -> (r: Result<usize, InjectError>)
    ensures
        open_status == 0 ==> r == Ok::<usize, InjectError>(assembly_ptr),
        open_status != 0 ==> (r matches Err(InjectError::CustomError(m)) && m@
            == "mono_assembly_load_from() returned with error: "@ + decimal(open_status as nat)),
{
    if open_status != 0 {
        let mut m = String::from_str("mono_assembly_load_from() returned with error: ");
        let digits = decimal_string(open_status as u64);
        m.append(digits.as_str());
        Err(InjectError::CustomError(m))
    } else {
        Ok(assembly_ptr)
    }
}

/// After `mono_runtime_invoke`: a non-null exception object means the invoked method threw.
pub fn invoke_outcome(exception_object: usize) -> (r: Result<(), InjectError>)
    ensures
        exception_object == 0 ==> r is Ok,
        exception_object != 0 ==> (r matches Err(InjectError::CustomError(m)) && m@
            == "Runtime invocation failed with an exception!"@),
{
    if exception_object != 0 {
        Err(InjectError::CustomError(String::from_str("Runtime invocation failed with an exception!")))
    } else {
        Ok(())
    }
}

/// The nul-terminated name under which the injected assembly is loaded:
/// `tracker-injector-<guid>`.
pub fn assembly_name(guid: &str) -> (r: String)
    ensures
        r@ == "tracker-injector-"@ + guid@ + seq!['\0'],
{
    let mut name = String::from_str("tracker-injector-");
    name.append(guid);
    name.append("\0");
    proof {
        reveal_strlit("\0");
    }
    name
}

} // verus!
