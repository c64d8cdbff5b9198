//! The sequence of descriptors that a received ancillary region carries.

use crate::cmsg::{
    as_offset, fds_after, fds_from, first_hdr, first_record, is_rights_record, next_hdr,
    read_header, record_fds, region_fds, CMSG_HDR_SIZE, FD_SIZE,
};
use crate::fd::Fd;
use crate::native::read_i32;
use crate::platform::Platform;
use vstd::prelude::*;

verus! {

/// The part of one record's payload that has not been handed out yet: the
/// descriptor ids stored from `curr` up to `end`.
#[derive(Clone, Copy, Debug)]
pub struct FdsIterData {
    curr: usize,
    end: usize,
}

impl FdsIterData {
    /// True if the part lies inside `region` and holds whole ids.
    pub closed spec fn wf(&self, region: Seq<u8>) -> bool {
        &&& self.curr <= self.end <= region.len()
        &&& (self.end - self.curr) % (FD_SIZE as int) == 0
    }

    /// The ids that are left, in the order in which they are stored.
    pub closed spec fn fds(&self, region: Seq<u8>) -> Seq<i32> {
        fds_from(region, self.curr as int, ((self.end - self.curr) / (FD_SIZE as int)) as nat)
    }

    /// The payload of the record at `cmsg`, if that record passes
    /// descriptors. The payload ends where the record says, or where the
    /// region ends if that comes first; bytes at its end that do not make up
    /// a whole id are left out.
    pub fn new(platform: &Platform, region: &[u8], cmsg: usize) -> (r: Option<FdsIterData>)
        requires
            cmsg + CMSG_HDR_SIZE <= region.len(),
        ensures
            r is Some == is_rights_record(*platform, region@, cmsg as int),
            r matches Some(data) ==> data.wf(region@),
            r matches Some(data) ==> data.fds(region@) == record_fds(
                *platform,
                region@,
                cmsg as int,
            ),
    {
        let hdr = read_header(region, cmsg);
        if hdr.level == platform.sol_socket && hdr.typ == platform.scm_rights {
            let start: usize = cmsg + CMSG_HDR_SIZE;
            let room: usize = region.len() - cmsg;
            let stop: usize = if hdr.len <= room as u64 {
                cmsg + hdr.len as usize
            } else {
                region.len()
            };
            let data_size: usize = if stop >= start {
                stop - start
            } else {
                0
            };
            // This rounds down if the payload is bigger than a whole number of ids.
            let fds_count: usize = data_size / FD_SIZE;
            let end: usize = start + fds_count * FD_SIZE;
            Some(FdsIterData { curr: start, end })
        } else {
            None
        }
    }

    /// Hands out the next id as an owned descriptor, if one is left.
    pub fn next(&mut self, region: &[u8]) -> (r: Option<Fd>)
        requires
            old(self).wf(region@),
        ensures
            final(self).wf(region@),
            match r {
                Some(fd) => {
                    &&& old(self).fds(region@).len() > 0
                    &&& fd@ == Some(old(self).fds(region@)[0])
                    &&& final(self).fds(region@) == old(self).fds(region@).skip(1)
                },
                None => old(self).fds(region@).len() == 0 && *final(self) == *old(self),
            },
    {
        if self.curr < self.end {
            let next = read_i32(region, self.curr);
            self.curr = self.curr + FD_SIZE;
            Some(Fd::new(next))
        } else {
            None
        }
    }
}

/// The descriptors of a received ancillary region that nobody has taken yet.
///
/// The sequence owns every descriptor that it has not handed out. It hands
/// them out one by one with [`FdsIter::next`], in the order of the chain of
/// records, and cannot be started again.
#[derive(Debug)]
pub struct FdsIter<'a> {
    platform: Platform,
    control: &'a [u8],
    cmsg: Option<usize>,
    data: Option<FdsIterData>,
}

impl<'a> FdsIter<'a> {
    #[verifier::type_invariant]
    spec fn inv(self) -> bool {
        &&& self.cmsg matches Some(cmsg) ==> cmsg + CMSG_HDR_SIZE <= self.control@.len()
        &&& self.data matches Some(data) ==> data.wf(self.control@)
        &&& self.cmsg is None ==> self.data is None
    }

    /// The ids of the descriptors that the sequence still owns, in the order
    /// in which it will hand them out.
    pub closed spec fn remaining(&self) -> Seq<i32> {
        (match self.data {
            Some(data) => data.fds(self.control@),
            None => Seq::empty(),
        }) + (match self.cmsg {
            Some(cmsg) => fds_after(self.platform, self.control@, cmsg as int),
            None => Seq::empty(),
        })
    }

    /// How far the walk along the chain has come.
    spec fn cursor(&self) -> int {
        match self.cmsg {
            Some(cmsg) => cmsg as int,
            None => self.control@.len() as int,
        }
    }

    /// The sequence of all descriptors that the region `control` carries.
    /// `control` must have been filled in by the kernel on receipt, so that
    /// the ids in it are new to the process and owned by nobody else.
    pub fn new(platform: Platform, control: &'a [u8]) -> (it: FdsIter<'a>)
        ensures
            it.remaining() == region_fds(platform, control@),
    {
        let cmsg = Self::first_cmsg(control);
        let data = match cmsg {
            Some(at) => FdsIterData::new(&platform, control, at),
            None => None,
        };
        FdsIter { platform, control, cmsg, data }
    }

    /// A sequence over the region `control` that owns nothing.
    pub fn empty(platform: Platform, control: &'a [u8]) -> (it: FdsIter<'a>)
        ensures
            it.remaining() == Seq::<i32>::empty(),
    {
        FdsIter { platform, control, cmsg: None, data: None }
    }

    fn first_cmsg(region: &[u8]) -> (r: Option<usize>)
        ensures
            as_offset(r) == first_record(region@),
    {
        first_hdr(region)
    }

    /// Moves on to the next record of the chain. The descriptors of the
    /// record that is left behind must have been handed out.
    fn advance_cmsg(&mut self)
        requires
            old(self).data matches Some(data) ==> data.fds(old(self).control@).len() == 0,
        ensures
            final(self).remaining() == old(self).remaining(),
            final(self).control == old(self).control,
            final(self).platform == old(self).platform,
            old(self).cmsg is Some ==> final(self).cursor() > old(self).cursor(),
            old(self).cmsg is None ==> final(self).cmsg is None,
    {
        proof {
            use_type_invariant(&*self);
        }
        if let Some(cmsg) = self.cmsg {
            let new_cmsg = next_hdr(self.control, cmsg);
            let new_data = match new_cmsg {
                Some(at) => FdsIterData::new(&self.platform, self.control, at),
                None => None,
            };
            // A payload is held only together with its record.
            self.data = None;
            self.cmsg = new_cmsg;
            self.data = new_data;
        }
    }

    /// Hands out the next descriptor, or `None` when none is left. The
    /// caller owns what it gets; the sequence owns the rest.
    pub fn next(&mut self) -> (r: Option<Fd>)
        ensures
            match r {
                Some(fd) => {
                    &&& old(self).remaining().len() > 0
                    &&& fd@ == Some(old(self).remaining()[0])
                    &&& final(self).remaining() == old(self).remaining().skip(1)
                },
                None => {
                    &&& old(self).remaining().len() == 0
                    &&& final(self).remaining().len() == 0
                },
            },
    {
        loop
            invariant
                self.remaining() == old(self).remaining(),
            decreases self.control@.len() - self.cursor(),
        {
            proof {
                use_type_invariant(&*self);
            }
            let item = match self.data {
                Some(data) => {
                    let mut rest = data;
                    let item = rest.next(self.control);
                    self.data = Some(rest);
                    item
                },
                None => None,
            };
            match item {
                Some(fd) => {
                    return Some(fd);
                },
                None => {
                    self.advance_cmsg();
                    proof {
                        use_type_invariant(&*self);
                    }
                    if self.cmsg.is_none() {
                        return None;
                    }
                },
            }
        }
    }

    /// Gives up every descriptor that has not been handed out, for the
    /// caller to close when the sequence goes away. Returns their ids, each
    /// once and in order; the sequence owns nothing afterwards. What was
    /// handed out before is not among them.
    #[must_use]
    pub fn disown(&mut self) -> (ids: Vec<i32>)
        ensures
            ids@ == old(self).remaining(),
            final(self).remaining().len() == 0,
    {
        let mut ids: Vec<i32> = Vec::new();
        loop
            invariant
                ids@ + self.remaining() == old(self).remaining(),
            ensures
                ids@ == old(self).remaining(),
                self.remaining().len() == 0,
            decreases self.remaining().len(),
        {
            match self.next() {
                Some(fd) => {
                    let mut fd = fd;
                    let id = fd.into_raw_fd();
                    ids.push(id);
                },
                None => {
                    break ;
                },
            }
        }
        ids
    }
}

} // verus!
