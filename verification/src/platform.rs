//! What the sink takes from outside: three types that it carries through
//! without looking inside, and the two calls by which a flag is tied to the
//! hangup signal and released again. Nothing here is proved; the contracts
//! below are believed.

use vstd::prelude::*;
use std::sync::Arc;
use std::sync::atomic::AtomicBool;

verus! {

/// `std::path::PathBuf`, opaque here: two paths are told apart, never read.
#[verifier::external_type_specification]
#[verifier::external_body]
pub struct ExPathBuf(std::path::PathBuf);

/// `std::io::Error`, opaque here: an error is handed on, never read.
#[verifier::external_type_specification]
#[verifier::external_body]
pub struct ExIoError(std::io::Error);

/// `signal_hook::SigId`, the token of one registered action, opaque here.
#[verifier::external_type_specification]
#[verifier::external_body]
pub struct ExSigId(signal_hook::SigId);

/// The number of the hangup signal, by which a log rotation tool asks a
/// process to open its log files again. It is 1 on every POSIX system.
pub const SIGHUP: i32 = 1;

/// `signal_hook::flag::register` adds, to the actions run when `signal`
/// arrives, one that stores `true` in `flag`. It returns the action's token,
/// or the error of the system call that installs the handler. It panics on
/// the five signals that the registry forbids (kill, stop, illegal
/// instruction, floating point error, segmentation fault); the hangup
/// signal, the only one admitted here, is none of them. Whether it succeeds
/// rests with the operating system, so nothing is claimed of the result.
pub assume_specification[ signal_hook::flag::register ](
    signal: i32,
    flag: Arc<AtomicBool>,
) -> (registration: Result<signal_hook::SigId, std::io::Error>)
    requires
        signal == SIGHUP,
;

/// `signal_hook::low_level::unregister` removes the action with the token
/// `id` from the registry, if it is still there, and says whether it was. It
/// does not panic. What it returns rests on what was removed before, so
/// nothing is claimed of the result.
pub assume_specification[ signal_hook::low_level::unregister ](id: signal_hook::SigId) -> (removed:
    bool)
;

} // verus!
