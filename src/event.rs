use vstd::prelude::*;

use crate::completion::{cqe_error, cqe_result, error_of, result_of, IoError};
use crate::sockaddr::{decodes_to, is_inet, sockaddr_to_addr, SocketAddr};

verus! {

/// One kernel operation, with every input that must live until it completes.
///
/// The set of operations is closed: the driver stores events of every kind in
/// one table, and each kind's output is a variant of [`Output`].
#[derive(Debug)]
pub enum Event {
    /// Does nothing; completes with 0.
    Nop,
    /// Reads up to `len` bytes from `fd` at `offset`. The buffer is not part
    /// of the event: the kernel writes into it while the operation is in
    /// flight, so it is held outside and handed to [`Event::complete`].
    Read { fd: i32, len: usize, offset: i64 },
    /// Writes `buf` to `fd` at `offset`. The kernel only reads the buffer.
    Write { fd: i32, buf: Vec<u8>, offset: i64 },
    /// Accepts a connection on the listening socket `fd`, with the given `accept4` flags.
    Accept { fd: i32, flags: i32 },
}

/// The io_uring opcode of a submission.
#[derive(Clone, Copy, Debug, PartialEq, Eq, Structural)]
pub enum Opcode {
    Nop,
    Read,
    Write,
    Accept,
}

/// The scalar fields of a submission-queue entry. Buffer and address pointers
/// are taken from the event itself, whose memory does not move.
#[derive(Clone, Copy, Debug, PartialEq, Eq, Structural)]
pub struct Prep {
    pub opcode: Opcode,
    pub fd: i32,
    pub len: u32,
    pub offset: i64,
    pub flags: i32,
}

/// The typed result of a completed event.
#[derive(Debug)]
pub enum Output {
    Nop(Result<usize, IoError>),
    /// The filled buffer handed to [`Event::complete`], and the number of bytes read.
    Read(Vec<u8>, Result<usize, IoError>),
    /// The buffer handed in, and the number of bytes written.
    Write(Vec<u8>, Result<usize, IoError>),
    /// The descriptor the kernel handed over (owned by the caller whatever the
    /// address gives), and the peer's address.
    Accept(Option<i32>, Result<SocketAddr, IoError>),
}

/// The number of bytes a buffer of `n` bytes offers in one submission.
pub open spec fn transfer_len(n: nat) -> nat {
    if n <= u32::MAX {
        n
    } else {
        u32::MAX as nat
    }
}

/// The submission entry an event is prepared into.
pub open spec fn prep_of(e: Event) -> Prep {
    match e {
        Event::Nop => Prep { opcode: Opcode::Nop, fd: -1i32, len: 0, offset: 0, flags: 0 },
        Event::Read { fd, len, offset } => Prep {
            opcode: Opcode::Read,
            fd,
            len: transfer_len(len as nat) as u32,
            offset,
            flags: 0,
        },
        Event::Write { fd, buf, offset } => Prep {
            opcode: Opcode::Write,
            fd,
            len: transfer_len(buf@.len()) as u32,
            offset,
            flags: 0,
        },
        Event::Accept { fd, flags } => Prep { opcode: Opcode::Accept, fd, len: 0, offset: 0, flags },
    }
}

/// The count a read or write completion reports, checked against the length
/// submitted: the kernel never transfers more than it was offered.
pub open spec fn transfer_result(res: i32, len: nat) -> Result<usize, IoError> {
    match result_of(res) {
        Ok(n) => if n <= transfer_len(len) {
            Ok(n)
        } else {
            Err(IoError::InvalidInput)
        },
        Err(e) => Err(e),
    }
}

/// The count a read completion reports, checked against both the length
/// offered and the buffer that was filled.
pub open spec fn read_result(res: i32, len: nat, filled_len: nat) -> Result<usize, IoError> {
    if filled_len < len {
        transfer_result(res, filled_len)
    } else {
        transfer_result(res, len)
    }
}

/// The output an event yields when its completion carries `res`, given, for an
/// accept, the peer address bytes `addr` and, for a read, the `filled` buffer.
pub open spec fn output_matches(
    e: Event,
    res: i32,
    addr: Seq<u8>,
    filled: Vec<u8>,
    out: Output,
) -> bool {
    match e {
        Event::Nop => out == Output::Nop(result_of(res)),
        Event::Read { len, .. } => match out {
            Output::Read(b, r) => b == filled && r == read_result(res, len as nat, filled@.len()),
            _ => false,
        },
        Event::Write { buf, .. } => match out {
            Output::Write(b, r) => b == buf && r == transfer_result(res, buf@.len()),
            _ => false,
        },
        Event::Accept { .. } => match out {
            Output::Accept(fd, a) => if res >= 0 {
                &&& fd == Some(res)
                &&& (a is Ok <==> is_inet(addr))
                &&& (a matches Ok(sa) ==> decodes_to(addr, sa))
                &&& (a is Err ==> a == Err::<SocketAddr, IoError>(IoError::InvalidInput))
            } else {
                fd is None && a == Err::<SocketAddr, IoError>(error_of(res))
            },
            _ => false,
        },
    }
}

/// A no-op event.
pub fn nop() -> (e: Event)
    ensures
        e == Event::Nop,
{
    Event::Nop
}

/// A read of up to `len` bytes of `fd` at `offset`, into a buffer of `len`
/// bytes that the caller holds until completion.
pub fn read(fd: i32, len: usize, offset: i64) -> (e: Event)
    ensures
        e == (Event::Read { fd, len, offset }),
{
    Event::Read { fd, len, offset }
}

/// A write of `buf` to `fd` at `offset`; the buffer comes back in the output.
pub fn write(fd: i32, buf: Vec<u8>, offset: i64) -> (e: Event)
    ensures
        e == (Event::Write { fd, buf, offset }),
{
    Event::Write { fd, buf, offset }
}

/// An accept on the listening socket `fd`, with `accept4` flags such as close-on-exec.
pub fn accept(fd: i32, flags: i32) -> (e: Event)
    ensures
        e == (Event::Accept { fd, flags }),
{
    Event::Accept { fd, flags }
}

fn transfer_len_of(n: usize) -> (r: u32)
    ensures
        r as nat == transfer_len(n as nat),
{
    if n <= u32::MAX as usize {
        n as u32
    } else {
        u32::MAX
    }
}

fn checked_transfer(res: i32, len: usize) -> (r: Result<usize, IoError>)
    ensures
        r == transfer_result(res, len as nat),
{
    match cqe_result(res) {
        Ok(n) => if n <= transfer_len_of(len) as usize {
            Ok(n)
        } else {
            Err(IoError::InvalidInput)
        },
        Err(e) => Err(e),
    }
}

impl Event {
    /// The opcode, descriptor, length, offset and flags to write into the
    /// submission entry. The user-data field is the driver's to set.
    pub fn prepare(&self) -> (p: Prep)
        ensures
            p == prep_of(*self),
    {
        match self {
            Event::Nop => Prep { opcode: Opcode::Nop, fd: -1, len: 0, offset: 0, flags: 0 },
            Event::Read { fd, len, offset } => Prep {
                opcode: Opcode::Read,
                fd: *fd,
                len: transfer_len_of(*len),
                offset: *offset,
                flags: 0,
            },
            Event::Write { fd, buf, offset } => Prep {
                opcode: Opcode::Write,
                fd: *fd,
                len: transfer_len_of(buf.len()),
                offset: *offset,
                flags: 0,
            },
            Event::Accept { fd, flags } => Prep {
                opcode: Opcode::Accept,
                fd: *fd,
                len: 0,
                offset: 0,
                flags: *flags,
            },
        }
    }

    /// Consumes the event with its completion result `res` and produces its
    /// typed output. For an accept, `addr` holds the address bytes the kernel
    /// wrote; for a read, `filled` is the buffer it read into, handed back as
    /// given (its bytes are the kernel's, and nothing here speaks of them).
    /// Other events ignore both. Failures are values, never panics.
    ///
    /// A count larger than the length offered or than the filled buffer, or
    /// the result `i32::MIN`, cannot come from the kernel and is reported as an
    /// invalid argument.
    pub fn complete(self, res: i32, addr: &[u8], filled: Vec<u8>) -> (out: Output)
        ensures
            output_matches(self, res, addr@, filled, out),
    {
        match self {
            Event::Nop => Output::Nop(cqe_result(res)),
            Event::Read { len, .. } => {
                let offered = if filled.len() < len {
                    filled.len()
                } else {
                    len
                };
                let r = checked_transfer(res, offered);
                Output::Read(filled, r)
            },
            Event::Write { buf, .. } => {
                let r = checked_transfer(res, buf.len());
                Output::Write(buf, r)
            },
            Event::Accept { .. } => {
                if res >= 0 {
                    Output::Accept(Some(res), sockaddr_to_addr(addr))
                } else {
                    Output::Accept(None, Err(cqe_error(res)))
                }
            },
        }
    }
}

/// A no-op that the kernel completes with 0 yields `Ok(0)`.
pub proof fn lemma_nop_yields_zero(addr: Seq<u8>, filled: Vec<u8>, out: Output)
    requires
        output_matches(Event::Nop, 0, addr, filled, out),
    ensures
        out == Output::Nop(Ok(0)),
{
}

/// A write hands back the very buffer it was given (the kernel only reads
/// it), whatever the result, and a successful count never exceeds its length.
pub proof fn lemma_write_buffer_returned(
    fd: i32,
    buf: Vec<u8>,
    offset: i64,
    res: i32,
    addr: Seq<u8>,
    filled: Vec<u8>,
    out: Output,
)
    requires
        output_matches(Event::Write { fd, buf, offset }, res, addr, filled, out),
    ensures
        out matches Output::Write(b, r) && b == buf && (r matches Ok(n) ==> n <= buf@.len()),
{
}

/// A read hands back the buffer that was filled, whatever the result, and a
/// successful count never exceeds that buffer's length nor the length
/// offered, so its first `n` bytes are in range.
pub proof fn lemma_read_count_in_range(
    fd: i32,
    len: usize,
    offset: i64,
    res: i32,
    addr: Seq<u8>,
    filled: Vec<u8>,
    out: Output,
)
    requires
        output_matches(Event::Read { fd, len, offset }, res, addr, filled, out),
    ensures
        out matches Output::Read(b, r) && b == filled && (r matches Ok(n) ==> n <= filled@.len() && n
            <= len),
{
}

} // verus!
