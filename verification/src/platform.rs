//! The numbers that the platform gives to the names this library needs.

use vstd::prelude::*;

verus! {

/// The level and type that mark an ancillary record as one that passes open
/// descriptors, and the flag bit that reports truncated ancillary data.
///
/// Every function of the library is verified for all values of these
/// numbers. [`Platform::native`] reads the ones of the machine it runs on.
#[derive(Clone, Copy, Debug, PartialEq, Eq, Structural)]
pub struct Platform {
    /// The level of socket-level records (`SOL_SOCKET`).
    pub sol_socket: i32,
    /// The type of records that pass descriptors (`SCM_RIGHTS`).
    pub scm_rights: i32,
    /// The message flag set when ancillary data was cut short (`MSG_CTRUNC`).
    pub msg_ctrunc: i32,
}

/// `libc::SOL_SOCKET`. Its value differs between platforms, so the contract
/// claims nothing of it.
#[verifier::external_body]
fn libc_sol_socket() -> i32 {
    libc::SOL_SOCKET
}

/// `libc::SCM_RIGHTS`. The contract claims nothing of its value.
#[verifier::external_body]
fn libc_scm_rights() -> i32 {
    libc::SCM_RIGHTS
}

/// `libc::MSG_CTRUNC`. The contract claims nothing of its value.
#[verifier::external_body]
fn libc_msg_ctrunc() -> i32 {
    libc::MSG_CTRUNC
}

impl Platform {
    /// The numbers of the platform that the program was built for.
    pub fn native() -> Platform {
        Platform {
            sol_socket: libc_sol_socket(),
            scm_rights: libc_scm_rights(),
            msg_ctrunc: libc_msg_ctrunc(),
        }
    }

    /// True if a record with this level and type passes descriptors.
    pub open spec fn is_rights(self, level: i32, typ: i32) -> bool {
        level == self.sol_socket && typ == self.scm_rights
    }

    /// True if `flags` reports that ancillary data was cut short.
    pub open spec fn is_truncated(self, flags: i32) -> bool {
        flags & self.msg_ctrunc != 0
    }
}

} // verus!
