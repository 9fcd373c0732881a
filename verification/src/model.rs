//! The mathematical model of the stream state and of the read/write
//! protocols.
//!
//! The console device delivers its input as a script of poll outcomes: each
//! entry is either `Some(byte)` (a byte was available) or `None` (the device
//! had nothing at that poll).  Every contract in the crate is an equation over
//! [`StdioView`], the abstract state, using the transition functions defined
//! here: [`attempt_next`] / [`attempt_bytes`] describe one locked read
//! attempt, [`blocked_next`] / [`blocked_bytes`] describe the full blocking
//! protocol.

use vstd::prelude::*;

verus! {

/// Capacity of the input stream's internal byte buffer: a read attempt that
/// misses the buffer and asks for fewer bytes than this refills the buffer
/// from the device first.
pub const STDIN_BUF_CAP: usize = 1024;

/// Carriage-return normalization: the console byte adapter turns `0x0D` into
/// `0x0A` and leaves every other byte as it is.
pub open spec fn normalize(c: u8) -> u8 {
    if c == 0x0d {
        0x0a
    } else {
        c
    }
}

/// The byte carried by a poll outcome (`0` for an empty poll; used only under
/// an `is Some` guard).
pub open spec fn byte_of(e: Option<u8>) -> u8 {
    match e {
        Some(c) => c,
        None => 0,
    }
}

/// The smaller of two naturals.
pub open spec fn min_nat(a: nat, b: nat) -> nat {
    if a <= b {
        a
    } else {
        b
    }
}

/// Number of leading empty polls in the script.
pub open spec fn lead_nones(s: Seq<Option<u8>>) -> nat
    decreases s.len(),
{
    if s.len() == 0 {
        0
    } else {
        match s[0] {
            Some(_) => 0,
            None => 1 + lead_nones(s.skip(1)),
        }
    }
}

/// Whether the script still holds a byte somewhere.
pub open spec fn has_data(s: Seq<Option<u8>>) -> bool {
    lead_nones(s) < s.len()
}

/// Length of the leading run of available bytes in the script.
pub open spec fn data_run_len(s: Seq<Option<u8>>) -> nat
    decreases s.len(),
{
    if s.len() == 0 {
        0
    } else {
        match s[0] {
            Some(_) => 1 + data_run_len(s.skip(1)),
            None => 0,
        }
    }
}

/// The leading run of available bytes, already normalized: exactly what one
/// unbounded raw read would deliver and echo.
pub open spec fn data_run(s: Seq<Option<u8>>) -> Seq<u8>
    decreases s.len(),
{
    if s.len() == 0 {
        Seq::empty()
    } else {
        match s[0] {
            Some(c) => seq![normalize(c)] + data_run(s.skip(1)),
            None => Seq::empty(),
        }
    }
}

/// The bytes one raw read with `space` bytes of room delivers and echoes:
/// the leading run, normalized, capped at `space`.
pub open spec fn delivered(s: Seq<Option<u8>>, space: nat) -> Seq<u8> {
    data_run(s).take(min_nat(data_run_len(s), space) as int)
}

/// How many script entries one raw read with `space` bytes of room consumes:
/// the delivered bytes, plus the empty poll that ended the run, if the run
/// ended before the room was full and before the script's end.
pub open spec fn consumed_count(s: Seq<Option<u8>>, space: nat) -> nat {
    let run = data_run_len(s);
    if run >= space {
        space
    } else if run < s.len() {
        run + 1
    } else {
        run
    }
}

/// How many bytes one read attempt with `len` bytes of caller space is
/// willing to pull from the device: a small request refills the internal
/// buffer, a large one reads directly.
pub open spec fn attempt_space(len: nat) -> nat {
    if len >= STDIN_BUF_CAP as nat {
        len
    } else {
        STDIN_BUF_CAP as nat
    }
}

/// The bytes one attempt with caller space `len` pulls from the device
/// (normalized; each is echoed at the moment it is pulled).
pub open spec fn pulled(s: Seq<Option<u8>>, len: nat) -> Seq<u8> {
    delivered(s, attempt_space(len))
}

/// How many script entries one attempt with caller space `len` consumes.
pub open spec fn attempt_consumed(s: Seq<Option<u8>>, len: nat) -> nat {
    consumed_count(s, attempt_space(len))
}

/// The abstract state of the console device alone.
#[verifier::ext_equal]
pub struct ConsoleView {
    /// The script of poll outcomes still to be consumed.
    pub input: Seq<Option<u8>>,
    /// Every byte written to the device so far, oldest first.
    pub echoed: Seq<u8>,
}

/// The abstract state of the stream pair.
#[verifier::ext_equal]
pub struct StdioView {
    /// The console script still to be polled.
    pub input: Seq<Option<u8>>,
    /// Every byte written to the console so far (explicit writes and echoes).
    pub echoed: Seq<u8>,
    /// Bytes already pulled from the device but not yet handed to a caller.
    pub pending: Seq<u8>,
    /// How many times the blocking protocol has yielded to the scheduler.
    pub yields: nat,
}

/// The bytes one locked read attempt with caller space `len` returns.
pub open spec fn attempt_bytes(v: StdioView, len: nat) -> Seq<u8> {
    if len == 0 {
        Seq::empty()
    } else if v.pending.len() > 0 {
        v.pending.take(min_nat(len, v.pending.len()) as int)
    } else {
        data_run(v.input).take(min_nat(len, data_run_len(v.input)) as int)
    }
}

/// The state after one locked read attempt with caller space `len`.
pub open spec fn attempt_next(v: StdioView, len: nat) -> StdioView {
    if len == 0 {
        v
    } else if v.pending.len() > 0 {
        StdioView { pending: v.pending.skip(min_nat(len, v.pending.len()) as int), ..v }
    } else {
        let n = min_nat(len, data_run_len(v.input));
        StdioView {
            input: v.input.skip(attempt_consumed(v.input, len) as int),
            echoed: v.echoed + pulled(v.input, len),
            pending: pulled(v.input, len).skip(n as int),
            yields: v.yields,
        }
    }
}

/// Yields performed by a blocking read that found `k` leading empty polls:
/// the first failed attempt retries at once; every further failure yields.
pub open spec fn blocked_yield_add(k: nat) -> nat {
    if k == 0 {
        0
    } else {
        (k - 1) as nat
    }
}

/// The state a blocking read sees once its retry loop has worked through the
/// leading empty polls.
pub open spec fn blocked_pre(v: StdioView) -> StdioView {
    StdioView {
        input: v.input.skip(lead_nones(v.input) as int),
        yields: v.yields + blocked_yield_add(lead_nones(v.input)),
        ..v
    }
}

/// The bytes a blocking read with caller space `len` returns.
pub open spec fn blocked_bytes(v: StdioView, len: nat) -> Seq<u8> {
    if len == 0 || v.pending.len() > 0 {
        attempt_bytes(v, len)
    } else {
        attempt_bytes(blocked_pre(v), len)
    }
}

/// The state after a blocking read with caller space `len`.
pub open spec fn blocked_next(v: StdioView, len: nat) -> StdioView {
    if len == 0 || v.pending.len() > 0 {
        attempt_next(v, len)
    } else {
        attempt_next(blocked_pre(v), len)
    }
}

/// When a blocking read returns at all: immediately on a zero-length buffer
/// or on buffered bytes, otherwise only once the script supplies a byte.  On
/// a script that never does, the protocol polls and yields forever.
pub open spec fn can_block_read(v: StdioView, len: nat) -> bool {
    len == 0 || v.pending.len() > 0 || has_data(v.input)
}

/// A non-blocking read never yields and never waits: one attempt leaves the
/// yield count exactly as it was, whatever the device had to offer.
pub proof fn lemma_nonblocking_never_yields(v: StdioView, len: nat)
    ensures
        attempt_next(v, len).yields == v.yields,
{
}

/// Every byte a read consumes from the device is echoed exactly once, in
/// consumption order: one attempt on an empty buffer extends the echo by
/// precisely the normalized bytes it pulled; the bytes handed to the caller
/// are the first of them, in that same order; the rest stay buffered, to be
/// handed out (never echoed again) by later reads.
pub proof fn lemma_echo_exactly_once(v: StdioView, len: nat)
    requires
        len > 0,
        v.pending.len() == 0,
    ensures
        attempt_next(v, len).echoed == v.echoed + pulled(v.input, len),
        attempt_bytes(v, len) == pulled(v.input, len).take(attempt_bytes(v, len).len() as int),
        attempt_next(v, len).pending == pulled(v.input, len).skip(
            attempt_bytes(v, len).len() as int,
        ),
{
    lemma_data_run(v.input);
    assert(attempt_bytes(v, len) =~= pulled(v.input, len).take(attempt_bytes(v, len).len() as int));
}

/// The blocking protocol adds nothing to the echo while it waits: its echo
/// extension is exactly that of its one successful attempt, made once the
/// leading empty polls are consumed.
pub proof fn lemma_blocked_echo_exactly_once(v: StdioView, len: nat)
    requires
        len > 0,
        v.pending.len() == 0,
    ensures
        blocked_next(v, len).echoed == v.echoed + pulled(
            v.input.skip(lead_nones(v.input) as int),
            len,
        ),
        blocked_bytes(v, len) == attempt_bytes(blocked_pre(v), len),
{
    lemma_echo_exactly_once(blocked_pre(v), len);
}

/// Carriage-return translation: every byte a read pulls from the device is
/// the corresponding script byte with `0x0D` turned into `0x0A` — so a
/// carriage return appears as a line feed both in what the caller receives
/// and in what is echoed, and no pulled byte is ever a carriage return.
pub proof fn lemma_carriage_return_translated(s: Seq<Option<u8>>, len: nat)
    ensures
        forall|i: int|
            0 <= i < pulled(s, len).len() ==> s[i] is Some && #[trigger] pulled(s, len)[i]
                == normalize(byte_of(s[i])),
        forall|i: int|
            0 <= i < pulled(s, len).len() && byte_of(s[i]) == 0x0d ==> #[trigger] pulled(s, len)[i]
                == 0x0a,
        forall|i: int| 0 <= i < pulled(s, len).len() ==> #[trigger] pulled(s, len)[i] != 0x0d,
{
    lemma_data_run(s);
    assert forall|i: int| 0 <= i < pulled(s, len).len() implies #[trigger] pulled(s, len)[i]
        != 0x0d by {
        assert(pulled(s, len)[i] == data_run(s)[i]);
        assert(data_run(s)[i] == normalize(byte_of(s[i])));
    }
}

/// A failed attempt — nothing buffered and the front poll empty — returns no
/// bytes and consumes exactly that one empty poll.
pub proof fn lemma_failed_attempt(v: StdioView, len: nat)
    requires
        len > 0,
        v.pending.len() == 0,
        data_run_len(v.input) == 0,
        v.input.len() > 0,
    ensures
        attempt_bytes(v, len) == Seq::<u8>::empty(),
        attempt_next(v, len) == (StdioView { input: v.input.skip(1), ..v }),
{
    lemma_data_run(v.input);
    assert(attempt_bytes(v, len) =~= Seq::<u8>::empty());
    assert(pulled(v.input, len) =~= Seq::<u8>::empty());
    assert(v.echoed + pulled(v.input, len) =~= v.echoed);
    assert(pulled(v.input, len).skip(0) =~= v.pending);
    assert(attempt_next(v, len) =~= (StdioView { input: v.input.skip(1), ..v }));
}

/// How many bytes one attempt returns, by case.
pub proof fn lemma_attempt_bytes_len(v: StdioView, len: nat)
    ensures
        len == 0 ==> attempt_bytes(v, len).len() == 0,
        len > 0 && v.pending.len() > 0 ==> attempt_bytes(v, len).len() == min_nat(
            len,
            v.pending.len(),
        ),
        len > 0 && v.pending.len() == 0 ==> attempt_bytes(v, len).len() == min_nat(
            len,
            data_run_len(v.input),
        ),
{
    lemma_data_run(v.input);
}

/// Shape of the leading run: its length, its bound, the empty poll that ends
/// it, and each of its bytes as the normalized script byte.
pub proof fn lemma_data_run(s: Seq<Option<u8>>)
    ensures
        data_run(s).len() == data_run_len(s),
        data_run_len(s) <= s.len(),
        data_run_len(s) < s.len() ==> s[data_run_len(s) as int] is None,
        forall|i: int|
            0 <= i < data_run_len(s) ==> (#[trigger] s[i]) is Some && data_run(s)[i] == normalize(
                byte_of(s[i]),
            ),
    decreases s.len(),
{
    if s.len() > 0 && s[0] is Some {
        lemma_data_run(s.skip(1));
        assert forall|i: int|
            0 <= i < data_run_len(s) implies (#[trigger] s[i]) is Some && data_run(s)[i]
            == normalize(byte_of(s[i])) by {
            if i > 0 {
                assert(s.skip(1)[i - 1] == s[i]);
                assert(data_run(s)[i] == data_run(s.skip(1))[i - 1]);
            }
        }
        if data_run_len(s) < s.len() {
            assert(s[data_run_len(s) as int] == s.skip(1)[data_run_len(s.skip(1)) as int]);
        }
    }
}

/// Shape of the leading empty polls: their bound, each of them empty, and the
/// first byte right after them.
pub proof fn lemma_lead_nones(s: Seq<Option<u8>>)
    ensures
        lead_nones(s) <= s.len(),
        forall|i: int| 0 <= i < lead_nones(s) ==> (#[trigger] s[i]) is None,
        lead_nones(s) < s.len() ==> s[lead_nones(s) as int] is Some,
    decreases s.len(),
{
    if s.len() > 0 && s[0] is None {
        lemma_lead_nones(s.skip(1));
        assert forall|i: int| 0 <= i < lead_nones(s) implies (#[trigger] s[i]) is None by {
            if i > 0 {
                assert(s.skip(1)[i - 1] == s[i]);
            }
        }
        if lead_nones(s) < s.len() {
            assert(s[lead_nones(s) as int] == s.skip(1)[lead_nones(s.skip(1)) as int]);
        }
    }
}

} // verus!
