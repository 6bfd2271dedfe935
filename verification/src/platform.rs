//! Platform primitives.  Service control and syslog are not available
//! on this platform, so those operations report `Unsupported` instead
//! of acting; only the data-directory layout and the clock are real.

use vstd::prelude::*;

verus! {

/// Why a platform operation could not be carried out.
#[derive(Clone, Copy, Debug, PartialEq, Eq, Structural)]
pub enum PlatformError {
    Unsupported,
}

/// The directory every data file of the service lives under.
pub open spec fn data_dir() -> Seq<char> {
    "/Applications/WhiteBeam/data/"@
}

/// Absolute path of a named file inside the service's data directory.
pub fn get_data_file_path(data_file: &str) -> (r: String)
    ensures
        r@ == data_dir() + data_file@,
{
    let mut path = String::from_str("/Applications/WhiteBeam/data/");
    path.append(data_file);
    path
}

/// Service control is not supported on this platform.
pub fn start_service() -> (r: Result<(), PlatformError>)
    ensures
        r == Err::<(), PlatformError>(PlatformError::Unsupported),
{
    Err(PlatformError::Unsupported)
}

/// Service control is not supported on this platform.
pub fn stop_service() -> (r: Result<(), PlatformError>)
    ensures
        r == Err::<(), PlatformError>(PlatformError::Unsupported),
{
    Err(PlatformError::Unsupported)
}

/// Syslog is not supported on this platform.
pub fn get_syslog_path() -> (r: Result<String, PlatformError>)
    ensures
        r is Err && r->Err_0 == PlatformError::Unsupported,
{
    Err(PlatformError::Unsupported)
}

/// Secure file opening is not supported on this platform.
pub fn path_open_secure(_file_path: &str) -> (r: Result<(), PlatformError>)
    ensures
        r == Err::<(), PlatformError>(PlatformError::Unsupported),
{
    Err(PlatformError::Unsupported)
}

/// Checking user capabilities is not supported on this platform.
pub fn is_superuser() -> (r: Result<bool, PlatformError>)
    ensures
        r is Err && r->Err_0 == PlatformError::Unsupported,
{
    Err(PlatformError::Unsupported)
}

/// Relies on std::time::SystemTime::now: the current wall-clock time.
/// Nothing can be promised of a clock reading; callers state what
/// holds of every value.
#[verifier::external_body]
pub fn get_timestamp() -> u32 {
    match std::time::SystemTime::now().duration_since(std::time::UNIX_EPOCH) {
        Ok(elapsed) => (elapsed.as_secs() & 0xFFFF_FFFF) as u32,
        Err(_) => 0,
    }
}

} // verus!
