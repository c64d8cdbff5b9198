//! The owner of one received descriptor.

use vstd::prelude::*;

verus! {

/// An owner of at most one descriptor id.
///
/// A descriptor id has one owner at a time. Whoever takes the id out of an
/// `Fd` becomes its owner, and the `Fd` is empty from then on.
#[derive(Debug)]
pub struct Fd {
    fd: Option<i32>,
}

impl View for Fd {
    type V = Option<i32>;

    /// The id that is owned, if any.
    closed spec fn view(&self) -> Option<i32> {
        self.fd
    }
}

impl Fd {
    /// Makes `fd` owned. The caller must hold the only copy of it.
    pub fn new(fd: i32) -> (r: Fd)
        ensures
            r@ == Some(fd),
    {
        Fd { fd: Some(fd) }
    }

    /// True while the id has not been taken out.
    pub fn is_open(&self) -> (r: bool)
        ensures
            r == (self@ is Some),
    {
        self.fd.is_some()
    }

    /// Hands the id over to the caller and leaves `self` empty. An `Fd` that
    /// is already empty cannot hand over anything: the caller must not ask
    /// twice.
    pub fn into_raw_fd(&mut self) -> (fd: i32)
        requires
            old(self)@ is Some,
        ensures
            old(self)@ == Some(fd),
            final(self)@ is None,
    {
        let fd = self.fd.take();
        fd.unwrap()
    }

    /// Gives up the id that is still owned, for the caller to close when the
    /// `Fd` goes away. Returns nothing where the id was taken out before, so
    /// that no id is closed after it changed hands, and none twice.
    #[must_use]
    pub fn disown(&mut self) -> (fd: Option<i32>)
        ensures
            fd == old(self)@,
            final(self)@ is None,
    {
        self.fd.take()
    }
}

} // verus!
