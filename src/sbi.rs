//! Typed view of the Supervisor Binary Interface (SBI) call results.

use vstd::prelude::*;

verus! {

/// The error type which is returned from SBI.
#[derive(Debug, Copy, Clone, PartialEq, Eq, Structural)]
pub enum SBIError {
    Success,
    Failed,
    NotSupported,
    InvalidParam,
    Denied,
    InvalidAddress,
    AlreadyAvailable,
}

/// The firmware's numeric encoding of each error kind.
pub open spec fn status_code(e: SBIError) -> int {
    match e {
        SBIError::Success => 0,
        SBIError::Failed => -1,
        SBIError::NotSupported => -2,
        SBIError::InvalidParam => -3,
        SBIError::Denied => -4,
        SBIError::InvalidAddress => -5,
        SBIError::AlreadyAvailable => -6,
    }
}

/// The error kind that a status code denotes, if the firmware ABI defines it.
pub open spec fn error_of_status(status: int) -> Option<SBIError> {
    if status == 0 {
        Some(SBIError::Success)
    } else if status == -1 {
        Some(SBIError::Failed)
    } else if status == -2 {
        Some(SBIError::NotSupported)
    } else if status == -3 {
        Some(SBIError::InvalidParam)
    } else if status == -4 {
        Some(SBIError::Denied)
    } else if status == -5 {
        Some(SBIError::InvalidAddress)
    } else if status == -6 {
        Some(SBIError::AlreadyAvailable)
    } else {
        None
    }
}

/// A status code that the firmware ABI defines.
pub open spec fn is_defined_status(status: int) -> bool {
    -6 <= status <= 0
}

impl SBIError {
    /// The error kind for a raw status code, or `None` for a code outside the ABI.
    pub fn from_status(status: isize) -> (r: Option<SBIError>)
        ensures
            r == error_of_status(status as int),
            r is Some <==> is_defined_status(status as int),
            r matches Some(e) ==> status_code(e) == status,
    {
        match status {
            0 => Some(SBIError::Success),
            -1 => Some(SBIError::Failed),
            -2 => Some(SBIError::NotSupported),
            -3 => Some(SBIError::InvalidParam),
            -4 => Some(SBIError::Denied),
            -5 => Some(SBIError::InvalidAddress),
            -6 => Some(SBIError::AlreadyAvailable),
            _ => None,
        }
    }

    /// The raw status code of this error kind.
    pub fn status(self) -> (r: isize)
        ensures
            r == status_code(self),
            error_of_status(r as int) == Some(self),
    {
        match self {
            SBIError::Success => 0,
            SBIError::Failed => -1,
            SBIError::NotSupported => -2,
            SBIError::InvalidParam => -3,
            SBIError::Denied => -4,
            SBIError::InvalidAddress => -5,
            SBIError::AlreadyAvailable => -6,
        }
    }
}

/// The type returned by SBI functions.
pub type SBIResult<T = ()> = Result<T, SBIError>;

/// A decoded firmware reply: a defined error kind and the value register.
#[derive(Debug, Copy, Clone, PartialEq, Eq, Structural)]
pub struct SBIReturn {
    pub error: SBIError,
    pub value: usize,
}

/// The typed result of a reply: the value on success, the error kind otherwise.
pub open spec fn result_of(ret: SBIReturn) -> SBIResult<usize> {
    if ret.error == SBIError::Success {
        Ok(ret.value)
    } else {
        Err(ret.error)
    }
}

/// The typed result of a raw `(status, value)` register pair; `None` where the
/// status lies outside the ABI.
pub open spec fn typed_result(status: int, value: usize) -> Option<SBIResult<usize>> {
    match error_of_status(status) {
        Some(e) => Some(result_of(SBIReturn { error: e, value })),
        None => None,
    }
}

impl SBIReturn {
    /// Decodes the raw register pair that the trap instruction leaves behind.
    /// Returns `None` when the status is not one the firmware ABI defines: the
    /// caller must treat that as a fatal protocol violation.
    pub fn from_raw(status: isize, value: usize) -> (r: Option<SBIReturn>)
        ensures
            r is Some <==> is_defined_status(status as int),
            r matches Some(ret) ==> ret.value == value && status_code(ret.error) == status
                && error_of_status(status as int) == Some(ret.error),
    {
        match SBIError::from_status(status) {
            Some(error) => Some(SBIReturn { error, value }),
            None => None,
        }
    }

    /// The typed result: `Ok(value)` on success, `Err(kind)` otherwise.
    pub fn into_result(self) -> (r: SBIResult<usize>)
        ensures
            r == result_of(self),
    {
        match self.error {
            SBIError::Success => Ok(self.value),
            err => Err(err),
        }
    }

    /// Extracts the value of a reply whose success the caller has established.
    pub fn unwrap(self) -> (r: usize)
        requires
            self.error == SBIError::Success,
        ensures
            r == self.value,
    {
        self.value
    }
}

impl From<SBIReturn> for SBIResult<usize> {
    fn from(ret: SBIReturn) -> (r: SBIResult<usize>)
        ensures
            r == result_of(ret),
    {
        ret.into_result()
    }
}

impl vstd::std_specs::convert::FromSpecImpl<SBIReturn> for SBIResult<usize> {
    open spec fn obeys_from_spec() -> bool {
        true
    }

    open spec fn from_spec(ret: SBIReturn) -> SBIResult<usize> {
        result_of(ret)
    }
}

/// Extension id of the SBI base extension.
pub const BASE_EXTENSION: usize = 0x10;

/// Function id of `probe_extension` within the base extension.
pub const PROBE_EXTENSION_FUNCTION: usize = 3;

/// Extension id of the legacy system shutdown call.
pub const LEGACY_SHUTDOWN_EXTENSION: usize = 0x08;

/// One firmware request: the extension id, the function id and three arguments,
/// exactly as they are placed in the ABI's registers.
#[derive(Debug, Copy, Clone, PartialEq, Eq, Structural)]
pub struct SbiCall {
    pub ext_id: usize,
    pub func_id: usize,
    pub arg0: usize,
    pub arg1: usize,
    pub arg2: usize,
}

impl SbiCall {
    /// The request that asks the firmware whether extension `ext` is present.
    pub fn probe_extension(ext: usize) -> (r: SbiCall)
        ensures
            r == (SbiCall {
                ext_id: BASE_EXTENSION,
                func_id: PROBE_EXTENSION_FUNCTION,
                arg0: ext,
                arg1: 0,
                arg2: 0,
            }),
    {
        SbiCall { ext_id: BASE_EXTENSION, func_id: PROBE_EXTENSION_FUNCTION, arg0: ext, arg1: 0, arg2: 0 }
    }

    /// The request that shuts the machine down.
    pub fn shutdown() -> (r: SbiCall)
        ensures
            r == (SbiCall { ext_id: LEGACY_SHUTDOWN_EXTENSION, func_id: 0, arg0: 0, arg1: 0, arg2: 0 }),
    {
        SbiCall { ext_id: LEGACY_SHUTDOWN_EXTENSION, func_id: 0, arg0: 0, arg1: 0, arg2: 0 }
    }
}

/// What a probe reply means: the firmware answers zero for an absent extension.
pub open spec fn probe_outcome(ret: SBIReturn) -> SBIResult<usize> {
    match result_of(ret) {
        Ok(v) => if v == 0 {
            Err(SBIError::NotSupported)
        } else {
            Ok(v)
        },
        Err(e) => Err(e),
    }
}

/// What a shutdown call that came back means: the machine did not shut down,
/// so the result is always an error kind, `Failed` where the firmware claimed success.
pub open spec fn shutdown_outcome(ret: SBIReturn) -> SBIError {
    if ret.error == SBIError::Success {
        SBIError::Failed
    } else {
        ret.error
    }
}

/// Interprets the reply to a probe request: `Ok(id-specific value)` when the
/// extension is present, `Err(NotSupported)` when it is absent, and the
/// firmware's own error kind when the probe itself failed.
pub fn probe_extension_result(ret: SBIReturn) -> (r: SBIResult<usize>)
    ensures
        r == probe_outcome(ret),
        r matches Ok(v) ==> v != 0,
{
    match ret.into_result() {
        Ok(0) => Err(SBIError::NotSupported),
        Ok(v) => Ok(v),
        Err(e) => Err(e),
    }
}

/// Interprets a shutdown call that returned: never a success.
pub fn shutdown_result(ret: SBIReturn) -> (r: SBIError)
    ensures
        r == shutdown_outcome(ret),
        r != SBIError::Success,
{
    match ret.error {
        SBIError::Success => SBIError::Failed,
        e => e,
    }
}

/// Decoding a raw reply yields exactly the named error kind for each defined
/// non-zero status and drops the value; status zero yields success with the
/// value unchanged; any other status yields no result at all.
pub proof fn lemma_status_mapping(status: int, value: usize)
    ensures
        status == 0 ==> typed_result(status, value) == Some(Ok::<usize, SBIError>(value)),
        -6 <= status <= -1 ==> (typed_result(status, value) matches Some(Err(e))
            && status_code(e) == status && e != SBIError::Success),
        !is_defined_status(status) ==> typed_result(status, value) is None,
{
}

} // verus!
