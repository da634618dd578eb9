use vstd::prelude::*;

verus! {

/// A status code as the desktop service reports it: negative when read as
/// `i32` (top bit set) means failure.
#[derive(Clone, Copy, Debug, PartialEq, Eq, Structural)]
pub struct HResult(pub u32);

/// The code the service answers with when a window does not exist.
pub const ELEMENT_NOT_FOUND: u32 = 0x8002802B;

impl HResult {
    /// Whether the code reports a failure.
    pub open spec fn spec_failed(self) -> bool {
        self.0 >= 0x8000_0000
    }

    /// The code whose bits are those of `v`.
    pub open spec fn spec_from_i32(v: i32) -> HResult {
        HResult((if v >= 0 { v as int } else { v + 0x1_0000_0000 }) as u32)
    }

    /// Reinterprets a signed code bit for bit.
    pub fn from_i32(v: i32) -> (r: HResult)
        ensures
            r == HResult::spec_from_i32(v),
    {
        if v >= 0 {
            HResult(v as u32)
        } else {
            HResult((v as i64 + 0x1_0000_0000) as u32)
        }
    }

    pub fn failed(&self) -> (r: bool)
        ensures
            r == self.spec_failed(),
    {
        self.0 >= 0x8000_0000
    }

    /// `Ok` for a success code, `Err(ComError(code))` for a failure.
    pub fn as_result(&self) -> (r: Result<(), Error>)
        ensures
            r == hresult_result(*self),
    {
        if self.failed() {
            Err(Error::ComError(*self))
        } else {
            Ok(())
        }
    }
}

/// What a status code means as an outcome.
pub open spec fn hresult_result(hr: HResult) -> Result<(), Error> {
    if hr.spec_failed() {
        Err(Error::ComError(hr))
    } else {
        Ok(())
    }
}

#[derive(Clone, Copy, Debug, PartialEq, Eq, Structural)]
pub enum Error {
    /// Window is not found
    WindowNotFound,
    /// Desktop with given ID is not found
    DesktopNotFound,
    /// Creating the desktop failed
    CreateDesktopFailed,
    /// Removing the desktop failed
    RemoveDesktopFailed,
    /// A service could not be created (is the shell running?), or it was
    /// already torn down
    ServiceNotCreated,
    /// A failure code of the service that no other variant covers
    ComError(HResult),
    /// A call reported success but handed back no object: a broken
    /// postcondition of the service, not a caller error
    ComAllocatedNullPtr,
    /// A notification could not be forwarded
    SenderError,
}

impl From<HResult> for Error {
    fn from(hr: HResult) -> (r: Error)
        ensures
            r == Error::ComError(hr),
    {
        Error::ComError(hr)
    }
}

impl vstd::std_specs::convert::FromSpecImpl<HResult> for Error {
    open spec fn obeys_from_spec() -> bool {
        true
    }

    open spec fn from_spec(v: HResult) -> Error {
        Error::ComError(v)
    }
}

/// Maps a failure code of the service to the error that the window lookups
/// report: a missing window becomes `WindowNotFound`, any other code passes
/// through.
pub fn map_window_error(hr: HResult) -> (r: Error)
    ensures
        r == (if hr.0 == ELEMENT_NOT_FOUND { Error::WindowNotFound } else { Error::ComError(hr) }),
{
    if hr.0 == ELEMENT_NOT_FOUND {
        Error::WindowNotFound
    } else {
        Error::ComError(hr)
    }
}

/// Turns the code of an error of the Windows bindings (`error.code()`) into
/// `ComError` with the same code, bit for bit.
pub fn map_win_err(er: windows::core::HRESULT) -> (r: Error)
    ensures
        r == Error::ComError(HResult::spec_from_i32(er.0)),
{
    Error::ComError(HResult::from_i32(er.0))
}

} // verus!
