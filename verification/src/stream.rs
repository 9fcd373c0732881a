//! The stream singletons, the process context that owns them, and the
//! `Stdin` / `Stdout` handles with the blocking and non-blocking read
//! protocols.
//!
//! In a running kernel the two singletons would be process-wide statics,
//! each behind its own lock.  Here they live in an explicitly constructed
//! [`StdioContext`]; exclusive access to the context stands for holding the
//! locks, so a lock can never be observed contended, and the would-block
//! answer for a contended lock cannot arise.  The voluntary yield of the
//! blocking protocol is recorded in the context's yield counter; the host
//! scheduler's turn is modeled by the next scripted poll outcome.

use crate::adapter::{StdinRaw, StdoutRaw};
use crate::console::Console;
use crate::fops::StdioError;
use crate::model::{
    attempt_bytes, attempt_next, blocked_bytes, blocked_next, blocked_pre, can_block_read,
    data_run_len, delivered, lead_nones, lemma_attempt_bytes_len, lemma_data_run,
    lemma_failed_attempt, lemma_lead_nones, min_nat, StdioView, STDIN_BUF_CAP,
};
use vstd::prelude::*;

verus! {

/// The buffered input stream: the raw reader plus the bytes already pulled
/// from the device but not yet handed to a caller.
pub struct BufferedInput {
    raw: StdinRaw,
    pending: Vec<u8>,
}

/// The output stream: it owns the raw writer and nothing else — no
/// buffering, so nothing to flush.
pub struct OutputStream {
    raw: StdoutRaw,
}

/// The process context: the console device, the two stream singletons, and
/// the count of voluntary yields performed by blocking reads.
pub struct StdioContext {
    console: Console,
    stdin_buf: BufferedInput,
    stdout_stream: OutputStream,
    yields: u64,
}

impl View for StdioContext {
    type V = StdioView;

    closed spec fn view(&self) -> StdioView {
        StdioView {
            input: self.console@.input,
            echoed: self.console@.echoed,
            pending: self.stdin_buf.pending@,
            yields: self.yields as nat,
        }
    }
}

impl BufferedInput {
    /// Hand out buffered bytes: moves the front of the pending buffer into
    /// the front of `dest`, as many bytes as both sides allow.
    fn serve(&mut self, dest: &mut Vec<u8>) -> (n: usize)
        ensures
            n == min_nat(old(dest)@.len(), old(self).pending@.len()),
            final(self).pending@ == old(self).pending@.skip(n as int),
            final(dest)@ == old(self).pending@.take(n as int) + old(dest)@.skip(n as int),
            final(dest)@.len() == old(dest)@.len(),
    {
        let ghost p0 = self.pending@;
        let ghost d0 = dest@;
        let mut n: usize = 0;
        #[verifier::loop_isolation(false)]
        while n < dest.len() && self.pending.len() > 0
            invariant
                n <= d0.len(),
                n <= p0.len(),
                dest@.len() == d0.len(),
                self.pending@ =~= p0.skip(n as int),
                dest@ =~= p0.take(n as int) + d0.skip(n as int),
            decreases dest.len() - n,
        {
            let b = self.pending.remove(0);
            dest.set(n, b);
            n = n + 1;
            proof {
                assert(self.pending@ =~= p0.skip(n as int));
                assert(dest@ =~= p0.take(n as int) + d0.skip(n as int));
            }
        }
        n
    }
}

impl StdioContext {
    /// A fresh context: nothing scripted, nothing written, nothing buffered,
    /// no yields yet.
    pub fn new() -> (r: StdioContext)
        ensures
            r@.input == Seq::<Option<u8>>::empty(),
            r@.echoed == Seq::<u8>::empty(),
            r@.pending == Seq::<u8>::empty(),
            r@.yields == 0,
    {
        StdioContext {
            console: Console::new(),
            stdin_buf: BufferedInput { raw: StdinRaw, pending: Vec::new() },
            stdout_stream: OutputStream { raw: StdoutRaw },
            yields: 0,
        }
    }

    /// Make `b` the next byte the console will deliver.
    pub fn inject_byte(&mut self, b: u8)
        ensures
            final(self)@ == (StdioView { input: old(self)@.input.push(Some(b)), ..old(self)@ }),
    {
        self.console.inject_byte(b);
        proof {
            assert(self@ =~= (StdioView { input: old(self)@.input.push(Some(b)), ..old(self)@ }));
        }
    }

    /// Script one empty poll of the console.
    pub fn inject_gap(&mut self)
        ensures
            final(self)@ == (StdioView { input: old(self)@.input.push(None), ..old(self)@ }),
    {
        self.console.inject_gap();
        proof {
            assert(self@ =~= (StdioView { input: old(self)@.input.push(None), ..old(self)@ }));
        }
    }

    /// Everything written to the console so far — explicit writes and echoes,
    /// oldest byte first.
    pub fn output(&self) -> (r: &Vec<u8>)
        ensures
            r@ == self@.echoed,
    {
        self.console.output()
    }

    /// How many times a blocking read has yielded to the scheduler.
    pub fn yield_count(&self) -> (r: u64)
        ensures
            r == self@.yields,
    {
        self.yields
    }

    /// The voluntary yield point of the blocking protocol: cooperatively
    /// relinquish execution (recorded in the yield counter).  The lock is
    /// never held here.
    fn yield_now(&mut self)
        requires
            old(self)@.yields < u64::MAX,
        ensures
            final(self)@ == (StdioView { yields: old(self)@.yields + 1, ..old(self)@ }),
    {
        self.yields = self.yields + 1;
        proof {
            assert(self@ =~= (StdioView { yields: old(self)@.yields + 1, ..old(self)@ }));
        }
    }

    /// One locked read attempt on the input stream: serve buffered bytes if
    /// there are any; otherwise pull from the device — directly into `dest`
    /// for a large request, through a refill of the internal buffer for a
    /// small one.  Returns the count read; 0 only when nothing was available.
    fn read_attempt(&mut self, dest: &mut Vec<u8>) -> (r: Result<usize, StdioError>)
        ensures
            ({
                let v = old(self)@;
                let len = old(dest)@.len();
                let bytes = attempt_bytes(v, len);
                &&& r matches Ok(n) && n == bytes.len()
                &&& final(self)@ == attempt_next(v, len)
                &&& final(dest)@ == bytes + old(dest)@.skip(bytes.len() as int)
                &&& final(dest)@.len() == len
            }),
    {
        let ghost v = self@;
        let ghost len = dest@.len();
        if dest.len() == 0 {
            proof {
                assert(attempt_bytes(v, len) + dest@.skip(0) =~= dest@);
            }
            return Ok(0);
        }
        if self.stdin_buf.pending.len() > 0 {
            let n = self.stdin_buf.serve(dest);
            proof {
                lemma_attempt_bytes_len(v, len);
                assert(self@ =~= attempt_next(v, len));
            }
            return Ok(n);
        }
        proof {
            lemma_data_run(v.input);
        }
        if dest.len() >= STDIN_BUF_CAP {
            // large request: read straight into the caller's buffer
            let r = self.stdin_buf.raw.read(&mut self.console, dest);
            proof {
                let n = min_nat(data_run_len(v.input), len);
                assert(attempt_bytes(v, len) =~= delivered(v.input, len));
                assert(delivered(v.input, len).skip(n as int) =~= Seq::<u8>::empty());
                assert(self@ =~= attempt_next(v, len));
            }
            return r;
        }
        // small request: refill the internal buffer from the device first
        let mut refill: Vec<u8> = Vec::new();
        #[verifier::loop_isolation(false)]
        while refill.len() < STDIN_BUF_CAP
            invariant
                refill@.len() <= STDIN_BUF_CAP,
                self@ == v,
                dest@.len() == len,
            decreases STDIN_BUF_CAP - refill.len(),
        {
            refill.push(0u8);
        }
        let got = self.stdin_buf.raw.read(&mut self.console, &mut refill);
        let t = match got {
            Ok(t) => t,
            Err(e) => {
                return Err(e);
            },
        };
        refill.truncate(t);
        proof {
            assert(refill@ =~= delivered(v.input, STDIN_BUF_CAP as nat));
        }
        self.stdin_buf.pending = refill;
        let n = self.stdin_buf.serve(dest);
        proof {
            let run = data_run_len(v.input);
            let pull = delivered(v.input, STDIN_BUF_CAP as nat);
            assert(pull.take(min_nat(len, pull.len()) as int) =~= attempt_bytes(v, len));
            assert(crate::model::pulled(v.input, len) =~= pull);
            assert(self@ =~= attempt_next(v, len));
        }
        Ok(n)
    }
}

/// The standard-input handle: a lightweight per-acquisition view onto the
/// input singleton, carrying its own non-blocking flag.  The flag starts
/// false (blocking) and changes only on an explicit `set_nonblocking`.
pub struct Stdin {
    nonblocking: bool,
}

/// The standard-output handle: a lightweight per-acquisition view onto the
/// output singleton.
pub struct Stdout {}

/// Constructs a new handle to the standard input of the process, in blocking
/// mode.
pub fn stdin() -> (r: Stdin)
    ensures
        !r.is_nonblocking(),
{
    Stdin { nonblocking: false }
}

/// Constructs a new handle to the standard output of the process.
pub fn stdout() -> (r: Stdout)
    ensures
        r == (Stdout {  }),
{
    Stdout {  }
}

impl Stdin {
    /// Whether this handle reads in non-blocking mode.
    pub closed spec fn is_nonblocking(&self) -> bool {
        self.nonblocking
    }

    /// Read the handle's non-blocking flag.
    pub fn load_nonblocking(&self) -> (r: bool)
        ensures
            r == self.is_nonblocking(),
    {
        self.nonblocking
    }

    /// Store `v` into the handle's non-blocking flag; the effect is immediate
    /// for every subsequent read through the capability layer.
    pub fn store_nonblocking(&mut self, v: bool)
        ensures
            final(self).is_nonblocking() == v,
    {
        self.nonblocking = v;
    }

    /// Blocking read: one locked attempt; on a zero-length buffer or once at
    /// least one byte was obtained, return the count at once.  Otherwise
    /// release the lock, retry, and yield to the scheduler after every
    /// further failed attempt, until a byte arrives.  With a non-zero-length
    /// buffer this never returns 0.
    ///
    /// A call on a context whose script never supplies a byte would poll and
    /// yield forever, exactly as the protocol prescribes; the precondition
    /// keeps such calls out, as does the counter's machine limit.
    pub fn read_blocked(&self, ctx: &mut StdioContext, dest: &mut Vec<u8>) -> (r: Result<
        usize,
        StdioError,
    >)
        requires
            can_block_read(old(ctx)@, old(dest)@.len()),
            old(ctx)@.yields + lead_nones(old(ctx)@.input) <= u64::MAX,
        ensures
            ({
                let v = old(ctx)@;
                let len = old(dest)@.len();
                let bytes = blocked_bytes(v, len);
                &&& r matches Ok(n) && n == bytes.len()
                &&& final(ctx)@ == blocked_next(v, len)
                &&& final(dest)@ == bytes + old(dest)@.skip(bytes.len() as int)
                &&& final(dest)@.len() == len
            }),
            old(dest)@.len() == 0 ==> r == Ok::<usize, StdioError>(0) && final(ctx)@ == old(ctx)@
                && final(dest)@ == old(dest)@,
            old(dest)@.len() > 0 ==> (r matches Ok(n) && n >= 1),
    {
        let ghost v0 = ctx@;
        let ghost len = dest@.len();
        let ghost k = lead_nones(v0.input);
        proof {
            lemma_lead_nones(v0.input);
            lemma_data_run(v0.input);
            lemma_attempt_bytes_len(v0, len);
        }
        let got = ctx.read_attempt(dest);
        let n0 = match got {
            Ok(n) => n,
            Err(e) => {
                return Err(e);
            },
        };
        if dest.len() == 0 {
            return Ok(n0);
        }
        if n0 > 0 {
            proof {
                if v0.pending.len() == 0 {
                    // the run starts at the front: no empty polls were skipped
                    assert(data_run_len(v0.input) > 0);
                    assert(v0.input[0] is Some);
                    assert(k == 0);
                    assert(blocked_pre(v0) =~= v0);
                }
            }
            return Ok(n0);
        }
        // nothing was buffered and the first poll came back empty: retry,
        // yielding between further attempts, until a byte arrives
        proof {
            assert(v0.pending.len() == 0);
            assert(data_run_len(v0.input) == 0);
            assert(k >= 1);
            lemma_failed_attempt(v0, len);
            assert(dest@ =~= old(dest)@);
        }
        let ghost mut j: nat = 1;
        #[verifier::loop_isolation(false)]
        loop
            invariant
                1 <= j <= k,
                len > 0,
                dest@.len() == len,
                dest@ == old(dest)@,
                k == lead_nones(v0.input),
                k < v0.input.len(),
                v0.pending.len() == 0,
                ctx@.input =~= v0.input.skip(j as int),
                ctx@.echoed == v0.echoed,
                ctx@.pending == v0.pending,
                ctx@.yields == v0.yields + j - 1,
            decreases k - j,
        {
            let ghost vw = ctx@;
            proof {
                lemma_lead_nones(v0.input);
                lemma_attempt_bytes_len(vw, len);
                lemma_data_run(vw.input);
                assert(vw.input[0] == v0.input[j as int]);
            }
            let got_retry = ctx.read_attempt(dest);
            let n = match got_retry {
                Ok(n) => n,
                Err(e) => {
                    return Err(e);
                },
            };
            if n > 0 {
                proof {
                    // a byte arrived, so every leading empty poll is consumed
                    assert(data_run_len(vw.input) > 0);
                    assert(vw.input[0] is Some);
                    assert(j == k);
                    assert(vw =~= blocked_pre(v0));
                }
                return Ok(n);
            }
            proof {
                // still nothing: exactly the next empty poll was consumed
                assert(data_run_len(vw.input) == 0);
                assert(j < k);
                lemma_failed_attempt(vw, len);
                assert(dest@ =~= old(dest)@);
            }
            ctx.yield_now();
            proof {
                j = j + 1;
                assert(ctx@.input =~= v0.input.skip(j as int));
            }
        }
    }

    /// Non-blocking read: take the lock without waiting and perform exactly
    /// one read attempt, returning its count as it is — 0 is a valid
    /// non-blocking result.  Exclusive access to the context stands for the
    /// lock, so the would-block answer for a contended lock cannot arise
    /// here; the capability layer maps both conditions to would-block anyway.
    pub fn read_nonblocked(&self, ctx: &mut StdioContext, dest: &mut Vec<u8>) -> (r: Result<
        usize,
        StdioError,
    >)
        ensures
            ({
                let v = old(ctx)@;
                let len = old(dest)@.len();
                let bytes = attempt_bytes(v, len);
                &&& r matches Ok(n) && n == bytes.len()
                &&& final(ctx)@ == attempt_next(v, len)
                &&& final(dest)@ == bytes + old(dest)@.skip(bytes.len() as int)
                &&& final(dest)@.len() == len
            }),
    {
        ctx.read_attempt(dest)
    }

    /// The plain stream read: always the blocking protocol.
    pub fn read(&self, ctx: &mut StdioContext, dest: &mut Vec<u8>) -> (r: Result<
        usize,
        StdioError,
    >)
        requires
            can_block_read(old(ctx)@, old(dest)@.len()),
            old(ctx)@.yields + lead_nones(old(ctx)@.input) <= u64::MAX,
        ensures
            ({
                let v = old(ctx)@;
                let len = old(dest)@.len();
                let bytes = blocked_bytes(v, len);
                &&& r matches Ok(n) && n == bytes.len()
                &&& final(ctx)@ == blocked_next(v, len)
                &&& final(dest)@ == bytes + old(dest)@.skip(bytes.len() as int)
                &&& final(dest)@.len() == len
            }),
            old(dest)@.len() > 0 ==> (r matches Ok(n) && n >= 1),
    {
        self.read_blocked(ctx, dest)
    }

    /// The identity cast the descriptor table uses for downcasting.
    pub fn into_any(self) -> (r: Stdin)
        ensures
            r == self,
    {
        self
    }
}

impl OutputStream {
    /// Locked write: delegate to the raw writer; every byte is accepted.
    fn write(&self, console: &mut Console, buf: &Vec<u8>) -> (r: Result<usize, StdioError>)
        ensures
            r matches Ok(n) && n == buf@.len(),
            final(console)@.echoed == old(console)@.echoed + buf@,
            final(console)@.input == old(console)@.input,
    {
        self.raw.write(console, buf)
    }

    /// Locked flush: delegate to the raw writer, which has nothing to do.
    fn flush(&self, console: &mut Console) -> (r: Result<(), StdioError>)
        ensures
            r matches Ok(u) && u == (),
            *final(console) == *old(console),
    {
        self.raw.flush(console)
    }
}

impl Stdout {
    /// Write the whole buffer to the console; always reports the full length
    /// written.
    pub fn write(&self, ctx: &mut StdioContext, buf: &Vec<u8>) -> (r: Result<usize, StdioError>)
        ensures
            r matches Ok(n) && n == buf@.len(),
            final(ctx)@ == (StdioView { echoed: old(ctx)@.echoed + buf@, ..old(ctx)@ }),
    {
        let r = ctx.stdout_stream.write(&mut ctx.console, buf);
        proof {
            assert(ctx@ =~= (StdioView { echoed: old(ctx)@.echoed + buf@, ..old(ctx)@ }));
        }
        r
    }

    /// Flush the output stream: a trivial success, there is no buffering.
    pub fn flush(&self, ctx: &mut StdioContext) -> (r: Result<(), StdioError>)
        ensures
            r matches Ok(u) && u == (),
            *final(ctx) == *old(ctx),
    {
        ctx.stdout_stream.flush(&mut ctx.console)
    }

    /// The identity cast the descriptor table uses for downcasting.
    pub fn into_any(self) -> (r: Stdout)
        ensures
            r == self,
    {
        self
    }
}

} // verus!
