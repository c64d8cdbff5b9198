//! The message header and the order of the calls on it.
//!
//! A header is built in one of two start states and moves on by value, so
//! that no operation can be called out of turn:
//!
//! ```text
//!    -> RecvStart -(recv)-> MsgHdrRecvEnd
//!  /
//! O
//!  \
//!    -> SendStart -(encode_fds)-> SendReady -(send)-> SendEnd
//! ```
//!
//! The library makes no system call. A header says what the kernel is to be
//! told; `recv` and `send` take what the kernel answered.

use crate::cmsg::{
    cmsg_buffer_fds_space, data_len, fds_space, first_cmsg, lemma_record_built, region_fds,
    rights_record, shrink_data_len, write_fds, CMSG_HDR_SIZE, FD_SIZE,
};
use crate::error::{call_outcome, call_res, CMsgBufferTooSmallError, OsError};
use crate::fds_iter::FdsIter;
use crate::native::overwrite;
use crate::platform::Platform;
use vstd::prelude::*;
use vstd::slice::slice_subrange;

verus! {

/// The state of a header that is ready to receive.
#[derive(Debug)]
pub struct RecvStart {}

/// The state of a header that is ready to have descriptors encoded.
#[derive(Debug)]
pub struct SendStart {}

/// The state of a header that is ready to be sent.
#[derive(Debug)]
pub struct SendReady {
    /// The number of descriptors that were encoded.
    pub fds_count: usize,
}

/// The state of a header that was sent.
#[derive(Debug)]
pub struct SendEnd {
    /// The number of payload bytes that the kernel took.
    pub bytes_sent: usize,
    /// The number of descriptors that went with them.
    pub fds_sent: usize,
}

impl Default for RecvStart {
    fn default() -> (state: RecvStart)
        ensures
            state == (RecvStart {  }),
    {
        RecvStart {  }
    }
}

impl Default for SendStart {
    fn default() -> (state: SendStart)
        ensures
            state == (SendStart {  }),
    {
        SendStart {  }
    }
}

/// What a header tells the kernel about one message, and the state the
/// header is in.
///
/// The message has no address. Its payload lies in `iov_len` buffers, which
/// the caller keeps. Its ancillary data lies in the first `control_len`
/// bytes of `control`. A message whose `control_len` is 0 has no ancillary
/// data, and the kernel is handed no buffer for it.
pub struct MsgHdrView<State> {
    /// The number of payload buffers.
    pub iov_len: usize,
    /// The ancillary buffer.
    pub control: Seq<u8>,
    /// The number of bytes of the ancillary buffer that are in use.
    pub control_len: usize,
    /// The message flags.
    pub flags: i32,
    /// The numbers of the platform.
    pub platform: Platform,
    /// The state.
    pub state: State,
}

impl<State> MsgHdrView<State> {
    /// The ancillary region that the kernel is handed.
    pub open spec fn region(self) -> Seq<u8> {
        control_region(self.control, self.control_len)
    }
}

/// The ancillary region of a message: the bytes of its ancillary buffer that
/// the kernel reads or has written.
pub open spec fn control_region(control: Seq<u8>, control_len: usize) -> Seq<u8> {
    if control_len <= control.len() {
        control.take(control_len as int)
    } else {
        control
    }
}

/// A message header in the state `State`.
#[derive(Debug)]
pub struct MsgHdr<State> {
    iov_len: usize,
    control: Vec<u8>,
    control_len: usize,
    flags: i32,
    platform: Platform,
    state: State,
}

impl<State> View for MsgHdr<State> {
    type V = MsgHdrView<State>;

    closed spec fn view(&self) -> MsgHdrView<State> {
        MsgHdrView {
            iov_len: self.iov_len,
            control: self.control@,
            control_len: self.control_len,
            flags: self.flags,
            platform: self.platform,
            state: self.state,
        }
    }
}

impl<State> MsgHdr<State> {
    /// The number of payload buffers to hand to the kernel.
    pub fn iov_len(&self) -> (n: usize)
        ensures
            n == self@.iov_len,
    {
        self.iov_len
    }

    /// The ancillary buffer to hand to the kernel.
    pub fn control(&self) -> (buf: &[u8])
        ensures
            buf@ == self@.control,
    {
        self.control.as_slice()
    }

    /// The length of the ancillary data to hand to the kernel.
    pub fn control_len(&self) -> (n: usize)
        ensures
            n == self@.control_len,
    {
        self.control_len
    }

    /// The numbers of the platform that the header goes by.
    pub fn platform(&self) -> (p: Platform)
        ensures
            p == self@.platform,
    {
        self.platform
    }
}

impl<State: Default> MsgHdr<State> {
    /// A header in a start state, for a message with `iov_len` payload
    /// buffers and the ancillary buffer `cmsg_buffer`, all of which is in
    /// use.
    pub fn new(platform: Platform, iov_len: usize, cmsg_buffer: Vec<u8>) -> (hdr: Self)
        ensures
            hdr@.iov_len == iov_len,
            hdr@.control == cmsg_buffer@,
            hdr@.control_len == cmsg_buffer.len(),
            hdr@.flags == 0,
            hdr@.platform == platform,
            call_ensures(State::default, (), hdr@.state),
    {
        let control_len = cmsg_buffer.len();
        MsgHdr {
            iov_len,
            control: cmsg_buffer,
            control_len,
            flags: 0,
            platform,
            state: State::default(),
        }
    }
}

impl MsgHdr<RecvStart> {
    /// A header for receiving into `iov_len` payload buffers and into the
    /// ancillary buffer `cmsg_buffer`, by the numbers of this platform.
    pub fn from_io_slice_mut(iov_len: usize, cmsg_buffer: Vec<u8>) -> (hdr: Self)
        ensures
            hdr@ == (MsgHdrView {
                iov_len,
                control: cmsg_buffer@,
                control_len: cmsg_buffer.len(),
                flags: 0,
                platform: hdr@.platform,
                state: RecvStart {  },
            }),
    {
        Self::new(Platform::native(), iov_len, cmsg_buffer)
    }

    /// The ancillary buffer, for the kernel to write into.
    pub fn control_mut(&mut self) -> (buf: &mut [u8])
        ensures
            buf@ == old(self)@.control,
            final(self)@ == (MsgHdrView { control: final(buf)@, ..old(self)@ }),
    {
        self.control.as_mut_slice()
    }

    /// Takes what the kernel answered to the receive call: `res` is the
    /// value that the call returned, `last_error` the platform's error
    /// number right after it, `control_len` the length of the ancillary data
    /// that the kernel reported, and `flags` its message flags. The
    /// ancillary data itself is what the kernel wrote into the buffer of
    /// [`Self::control_mut`].
    ///
    /// Fails with the error number if the call failed. Otherwise the
    /// header moves on, with `res` as the number of bytes received and the
    /// descriptors in the ancillary data still to be taken.
    pub fn recv(self, res: isize, last_error: i32, control_len: usize, flags: i32) -> (r: Result<
        MsgHdrRecvEnd,
        OsError,
    >)
        ensures
            match r {
                Ok(end) => call_outcome(res, last_error) matches Ok(count) && end@ == (
                MsgHdrRecvEndView {
                    iov_len: self@.iov_len,
                    control: self@.control,
                    control_len,
                    flags,
                    platform: self@.platform,
                    bytes_recvieved: count as usize,
                    fds_taken: false,
                }),
                Err(e) => call_outcome(res, last_error) == Err::<isize, OsError>(e),
            },
    {
        match call_res(res, last_error) {
            Ok(count) => Ok(
                MsgHdrRecvEnd {
                    iov_len: self.iov_len,
                    control: self.control,
                    control_len,
                    flags,
                    platform: self.platform,
                    bytes_recvieved: count as usize,
                    fds_taken: false,
                },
            ),
            Err(e) => Err(e),
        }
    }
}

/// What the kernel reported about a received message, and what has become
/// of the descriptors that came with it.
pub struct MsgHdrRecvEndView {
    /// The number of payload buffers.
    pub iov_len: usize,
    /// The ancillary buffer.
    pub control: Seq<u8>,
    /// The number of bytes of ancillary data that the kernel wrote.
    pub control_len: usize,
    /// The message flags that the kernel reported.
    pub flags: i32,
    /// The numbers of the platform.
    pub platform: Platform,
    /// The number of payload bytes received.
    pub bytes_recvieved: usize,
    /// True once the descriptors have been asked for.
    pub fds_taken: bool,
}

impl MsgHdrRecvEndView {
    /// The ancillary region that the kernel wrote.
    pub open spec fn region(self) -> Seq<u8> {
        control_region(self.control, self.control_len)
    }

    /// The header after its descriptors were asked for.
    pub open spec fn taken(self) -> MsgHdrRecvEndView {
        MsgHdrRecvEndView { fds_taken: true, ..self }
    }

    /// The ids of the descriptors that the header owns: all that its
    /// ancillary region carries, until they are asked for; none after that.
    pub open spec fn owned_fds(self) -> Seq<i32> {
        if self.fds_taken {
            Seq::empty()
        } else {
            region_fds(self.platform, self.region())
        }
    }
}

/// A header after a message was received into it.
///
/// The header owns the descriptors that came with the message until
/// [`MsgHdrRecvEnd::take_fds`] is called; from then on the sequence that the
/// call returned owns those that it has not handed out.
#[derive(Debug)]
pub struct MsgHdrRecvEnd {
    iov_len: usize,
    control: Vec<u8>,
    control_len: usize,
    flags: i32,
    platform: Platform,
    bytes_recvieved: usize,
    fds_taken: bool,
}

impl View for MsgHdrRecvEnd {
    type V = MsgHdrRecvEndView;

    closed spec fn view(&self) -> MsgHdrRecvEndView {
        MsgHdrRecvEndView {
            iov_len: self.iov_len,
            control: self.control@,
            control_len: self.control_len,
            flags: self.flags,
            platform: self.platform,
            bytes_recvieved: self.bytes_recvieved,
            fds_taken: self.fds_taken,
        }
    }
}

impl MsgHdrRecvEnd {
    /// The number of payload bytes received.
    pub fn bytes_recvieved(&self) -> (n: usize)
        ensures
            n == self@.bytes_recvieved,
    {
        self.bytes_recvieved
    }

    /// True if the kernel dropped ancillary data for want of room, and with
    /// it perhaps descriptors.
    pub fn was_control_truncated(&self) -> (truncated: bool)
        ensures
            truncated == self@.platform.is_truncated(self@.flags),
    {
        self.flags & self.platform.msg_ctrunc != 0
    }

    /// The descriptors that came with the message, as a sequence that hands
    /// them out one by one. The first call passes on all that the header
    /// owns; every later call returns a sequence that owns nothing,
    /// whatever became of the first.
    pub fn take_fds<'b>(&'b mut self) -> (it: FdsIter<'b>)
        ensures
            it.remaining() == old(self)@.owned_fds(),
            final(self)@ == old(self)@.taken(),
    {
        if self.fds_taken {
            FdsIter::empty(self.platform, self.control.as_slice())
        } else {
            self.fds_taken = true;
            let used: usize = if self.control_len <= self.control.len() {
                self.control_len
            } else {
                self.control.len()
            };
            let region = slice_subrange(self.control.as_slice(), 0, used);
            assert(region@ =~= old(self)@.region());
            FdsIter::new(self.platform, region)
        }
    }

    /// Gives up the descriptors that the header still owns, for the caller
    /// to close when the header goes away. Returns the ids of all that came
    /// with the message if they were never asked for, and nothing if they
    /// were: then the sequence that took them answers for them.
    #[must_use]
    pub fn disown(&mut self) -> (ids: Vec<i32>)
        ensures
            ids@ == old(self)@.owned_fds(),
            final(self)@ == old(self)@.taken(),
    {
        if !self.fds_taken {
            let mut fds = self.take_fds();
            fds.disown()
        } else {
            Vec::new()
        }
    }
}

/// True if a control buffer of `capacity` bytes has room for a record with
/// `count` descriptors: none needs no room; otherwise the header and the
/// ids must fit.
pub open spec fn encode_fits(capacity: int, count: int) -> bool {
    count == 0 || (capacity >= CMSG_HDR_SIZE && FD_SIZE * count <= capacity - CMSG_HDR_SIZE)
}

/// The control buffer `buf` after the descriptors `fds` were encoded into
/// it: the record that passes them at its beginning, the rest as it was. A
/// buffer too small for a header is left alone.
pub open spec fn encoded_control(p: Platform, buf: Seq<u8>, fds: Seq<i32>) -> Seq<u8> {
    if buf.len() < CMSG_HDR_SIZE {
        buf
    } else {
        overwrite(buf, 0, rights_record(p, fds))
    }
}

/// The length of the ancillary data of a message that passes `count`
/// descriptors: that of no ancillary data at all where there are none.
pub open spec fn encoded_control_len(count: int) -> int {
    if count == 0 {
        0
    } else {
        fds_space(count)
    }
}

/// The header `start` after the descriptors `fds` were encoded.
pub open spec fn encoded(start: MsgHdrView<SendStart>, fds: Seq<i32>) -> MsgHdrView<SendReady> {
    MsgHdrView {
        iov_len: start.iov_len,
        control: encoded_control(start.platform, start.control, fds),
        control_len: encoded_control_len(fds.len() as int) as usize,
        flags: start.flags,
        platform: start.platform,
        state: SendReady { fds_count: fds.len() as usize },
    }
}

impl MsgHdr<SendStart> {
    /// A header for sending `iov_len` payload buffers, with `cmsg_buffer`
    /// as scratch space for the ancillary data, by the numbers of this
    /// platform.
    pub fn from_io_slice(iov_len: usize, cmsg_buffer: Vec<u8>) -> (hdr: Self)
        ensures
            hdr@ == (MsgHdrView {
                iov_len,
                control: cmsg_buffer@,
                control_len: cmsg_buffer.len(),
                flags: 0,
                platform: hdr@.platform,
                state: SendStart {  },
            }),
    {
        Self::new(Platform::native(), iov_len, cmsg_buffer)
    }

    /// Encodes the ids `fds` as one record that passes descriptors, at the
    /// beginning of the control buffer. Fails if the buffer has no room for
    /// it. Without ids the message gets no ancillary data at all.
    ///
    /// The caller must keep every descriptor of `fds` open until the message
    /// has been sent.
    pub fn encode_fds(self, fds: &[i32]) -> (r: Result<MsgHdr<SendReady>, CMsgBufferTooSmallError>)
        requires
            fds_space(fds.len() as int) <= usize::MAX,
        ensures
            match r {
                Ok(ready) => {
                    &&& encode_fits(self@.control.len() as int, fds.len() as int)
                    &&& ready@ == encoded(self@, fds@)
                },
                Err(_) => !encode_fits(self@.control.len() as int, fds.len() as int),
            },
    {
        let mut this = self;
        let ghost start = this.control@;
        let ghost p = this.platform;
        let count: usize = if !first_cmsg(
            &mut this.control,
            this.platform.sol_socket,
            this.platform.scm_rights,
        ) {
            if fds.len() > 0 {
                return Err(CMsgBufferTooSmallError::new());
            }
            0
        } else {
            let ghost started = this.control@;
            let room: u64 = data_len(&this.control);
            if room / (FD_SIZE as u64) < fds.len() as u64 {
                return Err(CMsgBufferTooSmallError::new());
            }
            write_fds(&mut this.control, fds);
            let ghost filled = this.control@;
            shrink_data_len(&mut this.control, FD_SIZE * fds.len());
            proof {
                lemma_record_built(p, start, fds@, started, filled, this.control@);
            }
            fds.len()
        };
        // Adjust the length of the ancillary data now that the count is known.
        if count == 0 {
            this.control_len = 0;
        } else {
            this.control_len = cmsg_buffer_fds_space(count);
        }
        Ok(
            MsgHdr {
                iov_len: this.iov_len,
                control: this.control,
                control_len: this.control_len,
                flags: this.flags,
                platform: this.platform,
                state: SendReady { fds_count: count },
            },
        )
    }
}

impl MsgHdr<SendReady> {
    /// Takes what the kernel answered to the send call: `res` is the value
    /// that the call returned, and `last_error` the platform's error number
    /// right after it.
    ///
    /// Fails with the error number if the call failed. Otherwise the
    /// header moves on, with `res` as the number of bytes sent and the
    /// number of descriptors encoded before as the number sent.
    pub fn send(self, res: isize, last_error: i32) -> (r: Result<MsgHdr<SendEnd>, OsError>)
        ensures
            match r {
                Ok(end) => call_outcome(res, last_error) matches Ok(count) && end@ == (MsgHdrView {
                    iov_len: self@.iov_len,
                    control: self@.control,
                    control_len: self@.control_len,
                    flags: self@.flags,
                    platform: self@.platform,
                    state: SendEnd {
                        bytes_sent: count as usize,
                        fds_sent: self@.state.fds_count,
                    },
                }),
                Err(e) => call_outcome(res, last_error) == Err::<isize, OsError>(e),
            },
    {
        match call_res(res, last_error) {
            Ok(count) => Ok(
                MsgHdr {
                    iov_len: self.iov_len,
                    control: self.control,
                    control_len: self.control_len,
                    flags: self.flags,
                    platform: self.platform,
                    state: SendEnd { bytes_sent: count as usize, fds_sent: self.state.fds_count },
                },
            ),
            Err(e) => Err(e),
        }
    }

    /// The number of descriptors that were encoded.
    pub fn fds_count(&self) -> (n: usize)
        ensures
            n == self@.state.fds_count,
    {
        self.state.fds_count
    }
}

impl MsgHdr<SendEnd> {
    /// The number of payload bytes sent.
    pub fn bytes_sent(&self) -> (n: usize)
        ensures
            n == self@.state.bytes_sent,
    {
        self.state.bytes_sent
    }

    /// The number of descriptors sent.
    pub fn fds_sent(&self) -> (n: usize)
        ensures
            n == self@.state.fds_sent,
    {
        self.state.fds_sent
    }
}

} // verus!
