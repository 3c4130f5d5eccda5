//! The injector's errors.

use vstd::prelude::*;
use crate::text::concat_str;

verus! {

/// The errors of the injector.
#[derive(Debug, Clone)]
pub enum InjectError {
    IoError(String),
    ConversionError(String),
    CustomError(String),
    WindowsApiError(String),
}

impl InjectError {
    /// The text of the error, as its `Display` writes it.
    pub fn message(&self) -> (r: String)
        ensures
            r@ == match self {
                InjectError::IoError(e) => e@,
                InjectError::ConversionError(e) => e@,
                InjectError::CustomError(e) => e@,
                InjectError::WindowsApiError(e) => e@,
            },
    {
        match self {
            InjectError::IoError(e) => e.clone(),
            InjectError::ConversionError(e) => e.clone(),
            InjectError::CustomError(e) => e.clone(),
            InjectError::WindowsApiError(e) => e.clone(),
        }
    }

    /// An error with a message of the injector's own: `From<&str>`.
    pub fn custom(message: &str) -> (r: InjectError)
        ensures
            r matches InjectError::CustomError(m) && m@ == message@,
    {
        InjectError::CustomError(String::from_str(message))
    }

    /// An I/O failure, with the text of the I/O error: `From<std::io::Error>`.
    pub fn io(detail: &str) -> (r: InjectError)
        ensures
            r matches InjectError::IoError(m) && m@ == "IO error: "@ + detail@,
    {
        InjectError::IoError(concat_str("IO error: ", detail))
    }

    /// An integer that did not fit, with the text of the error: `From<TryFromIntError>`.
    pub fn int_conversion(detail: &str) -> (r: InjectError)
        ensures
            r matches InjectError::ConversionError(m) && m@ == "Int conversion error: "@ + detail@,
    {
        InjectError::ConversionError(concat_str("Int conversion error: ", detail))
    }

    /// Bytes that are not UTF-8, with the text of the error: `From<FromUtf8Error>`.
    pub fn utf8_conversion(detail: &str) -> (r: InjectError)
        ensures
            r matches InjectError::ConversionError(m) && m@ == "Utf-8 string conversion error: "@ + detail@,
    {
        InjectError::ConversionError(concat_str("Utf-8 string conversion error: ", detail))
    }

    /// A failed call of the operating system, with the text of its error.
    pub fn os(detail: &str) -> (r: InjectError)
        ensures
            r matches InjectError::WindowsApiError(m) && m@ == "OS error: "@ + detail@,
    {
        InjectError::WindowsApiError(concat_str("OS error: ", detail))
    }
}

} // verus!
