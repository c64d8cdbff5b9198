//! Passing open descriptors over connected Unix-domain sockets: the decisions
//! of a safe layer over `recvmsg` and `sendmsg`, each with a proof.
//!
//! The library frames and reads the ancillary data that carries descriptors,
//! keeps the calls on a message header in their order, and says at every
//! moment who owns a received descriptor, so that none is leaked and none is
//! closed twice. It makes no system call and closes nothing itself: the
//! caller hands the kernel what a header holds, hands the header what the
//! kernel answered, and closes what `disown` gives up.
//!
//! - [`msghdr`]: the message header and its states.
//! - [`fds_iter`]: the sequence of received descriptors.
//! - [`fd`]: the owner of one received descriptor.
//! - [`cmsg`]: the layout of ancillary records and the walk along them.
//! - [`native`]: integers as the machine lays them out in memory.
//! - [`platform`]: the numbers that the platform gives to names.
//! - [`error`]: the errors, and the reading of what a system call returned.
//! - [`laws`]: what holds of the library as a whole.

pub mod cmsg;
pub mod error;
pub mod fd;
pub mod fds_iter;
pub mod laws;
pub mod msghdr;
pub mod native;
pub mod platform;
