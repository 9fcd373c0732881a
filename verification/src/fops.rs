//! The file-object capability surface: the error domain, the `stat` and
//! `poll` result types, and the `FileLike` contract that the descriptor table
//! requires of every stream.

use crate::model::{
    attempt_bytes, attempt_next, blocked_bytes, blocked_next, can_block_read, lead_nones,
    StdioView,
};
use crate::stream::{Stdin, StdioContext, Stdout};
use vstd::prelude::*;

verus! {

/// The errors this layer surfaces.
#[derive(Clone, Copy, Debug, PartialEq, Eq, Structural)]
pub enum StdioError {
    /// The operation cannot complete without waiting; try again later.
    /// Raised only by the non-blocking read path.
    WouldBlock,
    /// The operation was attempted on the wrong direction of a stream:
    /// reading the output stream, or writing the input stream.
    PermissionDenied,
}

/// File mode bit for a character device.
pub const S_IFCHR: u32 = 0o20000;

/// Permission bits of the input stream: owner-read and group-read.
pub const STDIN_PERM: u32 = 0o440;

/// Permission bits of the output stream: owner-write and group-write.
pub const STDOUT_PERM: u32 = 0o220;

/// What `stat` reports for a stream.
#[derive(Clone, Copy, Debug, PartialEq, Eq, Structural)]
pub struct Stat {
    /// Inode number.
    pub st_ino: u64,
    /// Number of hard links.
    pub st_nlink: u64,
    /// File type and permission bits.
    pub st_mode: u32,
    /// Owner user id.
    pub st_uid: u32,
    /// Owner group id.
    pub st_gid: u32,
    /// Size in bytes.
    pub st_size: u64,
}

/// What `poll` reports for a stream.
#[derive(Clone, Copy, Debug, PartialEq, Eq, Structural)]
pub struct PollState {
    /// A read would not block.
    pub readable: bool,
    /// A write would not block.
    pub writable: bool,
}

/// The `stat` record of a console stream with the given mode bits: inode 1,
/// one link, every other field zero.
pub open spec fn char_device_stat(mode: u32) -> Stat {
    Stat { st_ino: 1, st_nlink: 1, st_mode: mode, st_uid: 0, st_gid: 0, st_size: 0 }
}

/// What `poll` reports on either console stream: both directions ready,
/// unconditionally — this layer performs no true readiness detection.
pub open spec fn both_ready() -> PollState {
    PollState { readable: true, writable: true }
}

/// The operation set every descriptor-table entry must provide.  Reading a
/// write-only stream or writing a read-only one fails with permission denied
/// and has no effect; a read in non-blocking mode that obtains nothing — no
/// data yet, or (outside this model) a contended lock — answers would-block.
pub trait FileLike {
    /// Whether reads are permitted on this stream.
    spec fn can_read(&self) -> bool;

    /// Whether writes are permitted on this stream.
    spec fn can_write(&self) -> bool;

    /// Whether reads currently use the non-blocking protocol.
    spec fn nonblocking_mode(&self) -> bool;

    /// Whether the stream has a non-blocking mode at all.
    spec fn supports_nonblocking(&self) -> bool;

    /// The mode bits this stream's `stat` reports.
    spec fn file_mode(&self) -> u32;

    /// POSIX-style read: permission-denied on a write-only stream; otherwise
    /// the blocking or the non-blocking protocol, by the current flag.
    fn read(&self, ctx: &mut StdioContext, dest: &mut Vec<u8>) -> (r: Result<usize, StdioError>)
        requires
            self.can_read() && !self.nonblocking_mode() ==> can_block_read(
                old(ctx)@,
                old(dest)@.len(),
            ) && old(ctx)@.yields + lead_nones(old(ctx)@.input) <= u64::MAX,
        ensures
            !self.can_read() ==> r == Err::<usize, StdioError>(StdioError::PermissionDenied)
                && *final(ctx) == *old(ctx) && final(dest)@ == old(dest)@,
            self.can_read() && !self.nonblocking_mode() ==> ({
                let bytes = blocked_bytes(old(ctx)@, old(dest)@.len());
                &&& r matches Ok(n) && n == bytes.len()
                &&& final(ctx)@ == blocked_next(old(ctx)@, old(dest)@.len())
                &&& final(dest)@ == bytes + old(dest)@.skip(bytes.len() as int)
                &&& (old(dest)@.len() > 0 ==> bytes.len() >= 1)
            }),
            self.can_read() && self.nonblocking_mode() ==> ({
                let bytes = attempt_bytes(old(ctx)@, old(dest)@.len());
                &&& final(ctx)@ == attempt_next(old(ctx)@, old(dest)@.len())
                &&& final(dest)@ == bytes + old(dest)@.skip(bytes.len() as int)
                &&& (old(dest)@.len() > 0 && bytes.len() == 0 ==> r == Err::<usize, StdioError>(
                    StdioError::WouldBlock,
                ))
                &&& (old(dest)@.len() == 0 || bytes.len() > 0 ==> r == Ok::<usize, StdioError>(
                    bytes.len() as usize,
                ))
            }),
            final(dest)@.len() == old(dest)@.len(),
    ;

    /// POSIX-style write: permission-denied on a read-only stream, with no
    /// side effect; otherwise every byte goes out and the full length is
    /// reported.
    fn write(&self, ctx: &mut StdioContext, buf: &Vec<u8>) -> (r: Result<usize, StdioError>)
        ensures
            !self.can_write() ==> r == Err::<usize, StdioError>(StdioError::PermissionDenied)
                && *final(ctx) == *old(ctx),
            self.can_write() ==> (r matches Ok(n) && n == buf@.len()) && final(ctx)@ == (StdioView {
                echoed: old(ctx)@.echoed + buf@,
                ..old(ctx)@
            }),
    ;

    /// Flush: a trivial success on both streams — neither buffers writes.
    fn flush(&self, ctx: &mut StdioContext) -> (r: Result<(), StdioError>)
        ensures
            r matches Ok(u) && u == (),
            *final(ctx) == *old(ctx),
    ;

    /// The stream's stat record: a character device, inode 1, one link, the
    /// stream's permission bits, everything else zero.
    fn stat(&self) -> (r: Result<Stat, StdioError>)
        ensures
            r == Ok::<Stat, StdioError>(char_device_stat(self.file_mode())),
    ;

    /// Readiness: both directions, unconditionally.
    fn poll(&self) -> (r: Result<PollState, StdioError>)
        ensures
            r == Ok::<PollState, StdioError>(both_ready()),
    ;

    /// Store the non-blocking flag.  Accepted on every stream; observable
    /// only where the stream supports a non-blocking mode.
    fn set_nonblocking(&mut self, nonblocking: bool) -> (r: Result<(), StdioError>)
        ensures
            r matches Ok(u) && u == (),
            final(self).nonblocking_mode() == (nonblocking && old(self).supports_nonblocking()),
            final(self).can_read() == old(self).can_read(),
            final(self).can_write() == old(self).can_write(),
            final(self).file_mode() == old(self).file_mode(),
            final(self).supports_nonblocking() == old(self).supports_nonblocking(),
    ;
}

impl FileLike for Stdin {
    open spec fn can_read(&self) -> bool {
        true
    }

    open spec fn can_write(&self) -> bool {
        false
    }

    open spec fn nonblocking_mode(&self) -> bool {
        self.is_nonblocking()
    }

    open spec fn supports_nonblocking(&self) -> bool {
        true
    }

    open spec fn file_mode(&self) -> u32 {
        S_IFCHR | STDIN_PERM
    }

    fn read(&self, ctx: &mut StdioContext, dest: &mut Vec<u8>) -> (r: Result<usize, StdioError>) {
        if self.load_nonblocking() {
            let got = self.read_nonblocked(ctx, dest);
            match got {
                Ok(n) => {
                    if n == 0 && dest.len() > 0 {
                        // no data yet: surface would-block, as a contended
                        // lock would
                        Err(StdioError::WouldBlock)
                    } else {
                        Ok(n)
                    }
                },
                Err(e) => Err(e),
            }
        } else {
            self.read_blocked(ctx, dest)
        }
    }

    fn write(&self, ctx: &mut StdioContext, buf: &Vec<u8>) -> (r: Result<usize, StdioError>) {
        Err(StdioError::PermissionDenied)
    }

    fn flush(&self, ctx: &mut StdioContext) -> (r: Result<(), StdioError>) {
        Ok(())
    }

    fn stat(&self) -> (r: Result<Stat, StdioError>) {
        let st_mode: u32 = S_IFCHR | STDIN_PERM;
        Ok(Stat { st_ino: 1, st_nlink: 1, st_mode, st_uid: 0, st_gid: 0, st_size: 0 })
    }

    fn poll(&self) -> (r: Result<PollState, StdioError>) {
        Ok(PollState { readable: true, writable: true })
    }

    fn set_nonblocking(&mut self, nonblocking: bool) -> (r: Result<(), StdioError>) {
        self.store_nonblocking(nonblocking);
        Ok(())
    }
}

impl FileLike for Stdout {
    open spec fn can_read(&self) -> bool {
        false
    }

    open spec fn can_write(&self) -> bool {
        true
    }

    open spec fn nonblocking_mode(&self) -> bool {
        false
    }

    open spec fn supports_nonblocking(&self) -> bool {
        false
    }

    open spec fn file_mode(&self) -> u32 {
        S_IFCHR | STDOUT_PERM
    }

    fn read(&self, ctx: &mut StdioContext, dest: &mut Vec<u8>) -> (r: Result<usize, StdioError>) {
        Err(StdioError::PermissionDenied)
    }

    fn write(&self, ctx: &mut StdioContext, buf: &Vec<u8>) -> (r: Result<usize, StdioError>) {
        Stdout::write(self, ctx, buf)
    }

    fn flush(&self, ctx: &mut StdioContext) -> (r: Result<(), StdioError>) {
        Stdout::flush(self, ctx)
    }

    fn stat(&self) -> (r: Result<Stat, StdioError>) {
        let st_mode: u32 = S_IFCHR | STDOUT_PERM;
        Ok(Stat { st_ino: 1, st_nlink: 1, st_mode, st_uid: 0, st_gid: 0, st_size: 0 })
    }

    fn poll(&self) -> (r: Result<PollState, StdioError>) {
        Ok(PollState { readable: true, writable: true })
    }

    fn set_nonblocking(&mut self, nonblocking: bool) -> (r: Result<(), StdioError>) {
        // output never blocks: accepted, no observable effect
        Ok(())
    }
}

} // verus!
