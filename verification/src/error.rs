//! The shared result-code taxonomy of the plugin ABI.
//!
//! Every fallible operation across the host/plugin boundary reports one of
//! these 17 codes as a plain 32-bit integer; 0 is success.

use vstd::prelude::*;

verus! {

/// Result of a plugin command or of plugin initialization.
#[derive(Clone, Copy, PartialEq, Eq, Structural, Hash, Debug)]
pub enum SdkError {
    /// Successful completion.
    Success,
    /// Invalid arguments.
    InvalidArgs,
    /// Object not found.
    NotFound,
    /// Access denied.
    AccessDenied,
    /// Timed out.
    Timeout,
    /// Input/output failure.
    IoError,
    /// Process not found.
    ProcessNotFound,
    /// Out of memory.
    OutOfMemory,
    /// Plugin not found.
    PluginNotFound,
    /// Cryptographic failure.
    CryptoError,
    /// Execution failure.
    ExecutionError,
    /// Internal failure.
    InternalError,
    /// Incompatible ABI version.
    AbiMismatch,
    /// Command registration failure.
    RegistrationFailed,
    /// Result buffer too small.
    BufferTooSmall,
    /// Exported function not found.
    FunctionNotFound,
    /// Module not found.
    ModuleNotFound,
}

/// The wire code of each result, 0 through 16.
pub open spec fn spec_code(e: SdkError) -> u32 {
    match e {
        SdkError::Success => 0u32,
        SdkError::InvalidArgs => 1u32,
        SdkError::NotFound => 2u32,
        SdkError::AccessDenied => 3u32,
        SdkError::Timeout => 4u32,
        SdkError::IoError => 5u32,
        SdkError::ProcessNotFound => 6u32,
        SdkError::OutOfMemory => 7u32,
        SdkError::PluginNotFound => 8u32,
        SdkError::CryptoError => 9u32,
        SdkError::ExecutionError => 10u32,
        SdkError::InternalError => 11u32,
        SdkError::AbiMismatch => 12u32,
        SdkError::RegistrationFailed => 13u32,
        SdkError::BufferTooSmall => 14u32,
        SdkError::FunctionNotFound => 15u32,
        SdkError::ModuleNotFound => 16u32,
    }
}

/// The result a wire code decodes to; every code above 16 decodes to
/// `InternalError`.
pub open spec fn spec_from_code(code: u32) -> SdkError {
    if code == 0 {
        SdkError::Success
    } else if code == 1 {
        SdkError::InvalidArgs
    } else if code == 2 {
        SdkError::NotFound
    } else if code == 3 {
        SdkError::AccessDenied
    } else if code == 4 {
        SdkError::Timeout
    } else if code == 5 {
        SdkError::IoError
    } else if code == 6 {
        SdkError::ProcessNotFound
    } else if code == 7 {
        SdkError::OutOfMemory
    } else if code == 8 {
        SdkError::PluginNotFound
    } else if code == 9 {
        SdkError::CryptoError
    } else if code == 10 {
        SdkError::ExecutionError
    } else if code == 11 {
        SdkError::InternalError
    } else if code == 12 {
        SdkError::AbiMismatch
    } else if code == 13 {
        SdkError::RegistrationFailed
    } else if code == 14 {
        SdkError::BufferTooSmall
    } else if code == 15 {
        SdkError::FunctionNotFound
    } else if code == 16 {
        SdkError::ModuleNotFound
    } else {
        SdkError::InternalError
    }
}

/// The text each result describes itself with.
pub open spec fn spec_message(e: SdkError) -> Seq<char> {
    match e {
        SdkError::Success => "Success"@,
        SdkError::InvalidArgs => "Invalid arguments"@,
        SdkError::NotFound => "Not found"@,
        SdkError::AccessDenied => "Access denied"@,
        SdkError::Timeout => "Timeout"@,
        SdkError::IoError => "I/O error"@,
        SdkError::ProcessNotFound => "Process not found"@,
        SdkError::OutOfMemory => "Out of memory"@,
        SdkError::PluginNotFound => "Plugin not found"@,
        SdkError::CryptoError => "Crypto error"@,
        SdkError::ExecutionError => "Execution error"@,
        SdkError::InternalError => "Internal error"@,
        SdkError::AbiMismatch => "ABI version mismatch"@,
        SdkError::RegistrationFailed => "Registration failed"@,
        SdkError::BufferTooSmall => "Buffer too small"@,
        SdkError::FunctionNotFound => "Function not found"@,
        SdkError::ModuleNotFound => "Module not found"@,
    }
}

impl SdkError {
    /// Decode a wire code; unknown codes collapse to `InternalError`.
    pub fn from_code(code: u32) -> (r: Self)
        ensures
            r == spec_from_code(code),
    {
        match code {
            0 => SdkError::Success,
            1 => SdkError::InvalidArgs,
            2 => SdkError::NotFound,
            3 => SdkError::AccessDenied,
            4 => SdkError::Timeout,
            5 => SdkError::IoError,
            6 => SdkError::ProcessNotFound,
            7 => SdkError::OutOfMemory,
            8 => SdkError::PluginNotFound,
            9 => SdkError::CryptoError,
            10 => SdkError::ExecutionError,
            11 => SdkError::InternalError,
            12 => SdkError::AbiMismatch,
            13 => SdkError::RegistrationFailed,
            14 => SdkError::BufferTooSmall,
            15 => SdkError::FunctionNotFound,
            16 => SdkError::ModuleNotFound,
            _ => SdkError::InternalError,
        }
    }

    /// The wire code of this result.
    pub fn code(self) -> (r: u32)
        ensures
            r == spec_code(self),
    {
        match self {
            SdkError::Success => 0,
            SdkError::InvalidArgs => 1,
            SdkError::NotFound => 2,
            SdkError::AccessDenied => 3,
            SdkError::Timeout => 4,
            SdkError::IoError => 5,
            SdkError::ProcessNotFound => 6,
            SdkError::OutOfMemory => 7,
            SdkError::PluginNotFound => 8,
            SdkError::CryptoError => 9,
            SdkError::ExecutionError => 10,
            SdkError::InternalError => 11,
            SdkError::AbiMismatch => 12,
            SdkError::RegistrationFailed => 13,
            SdkError::BufferTooSmall => 14,
            SdkError::FunctionNotFound => 15,
            SdkError::ModuleNotFound => 16,
        }
    }

    /// Whether this result reports success.
    pub fn is_success(self) -> (r: bool)
        ensures
            r == (self == SdkError::Success),
    {
        matches!(self, SdkError::Success)
    }

    /// Whether this result reports a failure.
    pub fn is_error(self) -> (r: bool)
        ensures
            r == (self != SdkError::Success),
    {
        !matches!(self, SdkError::Success)
    }

    /// A short text describing this result.
    pub fn as_str(self) -> (r: &'static str)
        ensures
            r@ == spec_message(self),
    {
        match self {
            SdkError::Success => "Success",
            SdkError::InvalidArgs => "Invalid arguments",
            SdkError::NotFound => "Not found",
            SdkError::AccessDenied => "Access denied",
            SdkError::Timeout => "Timeout",
            SdkError::IoError => "I/O error",
            SdkError::ProcessNotFound => "Process not found",
            SdkError::OutOfMemory => "Out of memory",
            SdkError::PluginNotFound => "Plugin not found",
            SdkError::CryptoError => "Crypto error",
            SdkError::ExecutionError => "Execution error",
            SdkError::InternalError => "Internal error",
            SdkError::AbiMismatch => "ABI version mismatch",
            SdkError::RegistrationFailed => "Registration failed",
            SdkError::BufferTooSmall => "Buffer too small",
            SdkError::FunctionNotFound => "Function not found",
            SdkError::ModuleNotFound => "Module not found",
        }
    }
}

/// Decoding inverts encoding: every result comes back unchanged from its
/// own wire code, and every wire code stays within 0 through 16.
pub proof fn lemma_code_roundtrip(e: SdkError)
    ensures
        spec_from_code(spec_code(e)) == e,
        spec_code(e) <= 16,
{
}

/// A short text describing a wire code.
pub fn as_str(code: u32) -> (r: &'static str)
    ensures
        r@ == spec_message(spec_from_code(code)),
{
    SdkError::from_code(code).as_str()
}

/// Wire code of `SdkError::Success`.
pub const SUCCESS: u32 = 0;

/// Wire code of `SdkError::InvalidArgs`.
pub const INVALID_ARGS: u32 = 1;

/// Wire code of `SdkError::NotFound`.
pub const NOT_FOUND: u32 = 2;

/// Wire code of `SdkError::AccessDenied`.
pub const ACCESS_DENIED: u32 = 3;

/// Wire code of `SdkError::Timeout`.
pub const TIMEOUT: u32 = 4;

/// Wire code of `SdkError::IoError`.
pub const IO_ERROR: u32 = 5;

/// Wire code of `SdkError::ProcessNotFound`.
pub const PROCESS_NOT_FOUND: u32 = 6;

/// Wire code of `SdkError::OutOfMemory`.
pub const OUT_OF_MEMORY: u32 = 7;

/// Wire code of `SdkError::PluginNotFound`.
pub const PLUGIN_NOT_FOUND: u32 = 8;

/// Wire code of `SdkError::CryptoError`.
pub const CRYPTO_ERROR: u32 = 9;

/// Wire code of `SdkError::ExecutionError`.
pub const EXECUTION_ERROR: u32 = 10;

/// Wire code of `SdkError::InternalError`.
pub const INTERNAL_ERROR: u32 = 11;

/// Wire code of `SdkError::AbiMismatch`.
pub const ABI_MISMATCH: u32 = 12;

/// Wire code of `SdkError::RegistrationFailed`.
pub const REGISTRATION_FAILED: u32 = 13;

/// Wire code of `SdkError::BufferTooSmall`.
pub const BUFFER_TOO_SMALL: u32 = 14;

/// Wire code of `SdkError::FunctionNotFound`.
pub const FUNCTION_NOT_FOUND: u32 = 15;

/// Wire code of `SdkError::ModuleNotFound`.
pub const MODULE_NOT_FOUND: u32 = 16;

} // verus!
