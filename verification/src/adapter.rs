//! The console byte adapter: stateless raw reader and writer between the
//! stream layer and the console device.
//!
//! On the way in, the adapter pulls bytes one at a time, stops at the first
//! empty poll or when the destination is full, turns each carriage return
//! into a line feed, and echoes every accepted byte back to the device.  An
//! echo failure never turns a successful read into a failure; the device
//! model's writes cannot fail at all.  On the way out, it forwards all bytes
//! verbatim and always reports the full length written.

use crate::console::Console;
use crate::fops::StdioError;
use crate::model::{
    byte_of, consumed_count, data_run, data_run_len, delivered, lemma_data_run, min_nat, normalize,
};
use vstd::prelude::*;

verus! {

/// The stateless raw reader: a typing seam over the device's input side.
pub struct StdinRaw;

/// The stateless raw writer: a typing seam over the device's output side.
pub struct StdoutRaw;

/// One device poll through the adapter: consumes the next scripted outcome;
/// an accepted byte comes back normalized and is echoed to the device.
pub fn console_read_bytes(console: &mut Console) -> (r: Option<u8>)
    ensures
        old(console)@.input.len() == 0 ==> r is None && *final(console) == *old(console),
        old(console)@.input.len() > 0 ==> final(console)@.input == old(console)@.input.skip(1),
        old(console)@.input.len() > 0 && old(console)@.input[0] is None ==> r is None
            && final(console)@.echoed == old(console)@.echoed,
        old(console)@.input.len() > 0 && old(console)@.input[0] is Some ==> r == Some(
            normalize(byte_of(old(console)@.input[0])),
        ) && final(console)@.echoed == old(console)@.echoed.push(
            normalize(byte_of(old(console)@.input[0])),
        ),
{
    let got = console.try_get_byte();
    match got {
        Some(c) => {
            let b: u8 = if c == 0x0d {
                0x0a
            } else {
                c
            };
            let mut echo: Vec<u8> = Vec::new();
            echo.push(b);
            // best-effort echo: a failure would be discarded, never propagated
            let _ = console_write_bytes(console, &echo);
            proof {
                assert(old(console)@.echoed + echo@ =~= old(console)@.echoed.push(b));
            }
            Some(b)
        },
        None => None,
    }
}

/// Forward bytes verbatim to the device; console writes are infallible and
/// the full length is always reported.
pub fn console_write_bytes(console: &mut Console, buf: &Vec<u8>) -> (r: Result<usize, StdioError>)
    ensures
        r matches Ok(n) && n == buf@.len(),
        final(console)@.echoed == old(console)@.echoed + buf@,
        final(console)@.input == old(console)@.input,
{
    console.write_bytes(buf);
    Ok(buf.len())
}

impl StdinRaw {
    /// Non-blocking raw read: fills a prefix of `dest` with normalized bytes
    /// pulled (and echoed) one at a time, stopping at the first empty poll or
    /// when `dest` is full.  Returns the count actually read — 0 when nothing
    /// was available.
    #[verifier::loop_isolation(false)]
    pub fn read(&self, console: &mut Console, dest: &mut Vec<u8>) -> (r: Result<
        usize,
        StdioError,
    >)
        ensures
            ({
                let s = old(console)@.input;
                let space = old(dest)@.len();
                let t = min_nat(data_run_len(s), space);
                &&& r matches Ok(n) && n == t
                &&& final(console)@.input == s.skip(consumed_count(s, space) as int)
                &&& final(console)@.echoed == old(console)@.echoed + delivered(s, space)
                &&& final(dest)@ == delivered(s, space) + old(dest)@.skip(t as int)
                &&& final(dest)@.len() == space
            }),
    {
        let ghost s = console@.input;
        let ghost w0 = console@.echoed;
        let ghost d0 = dest@;
        proof {
            lemma_data_run(s);
        }
        let mut read_len: usize = 0;
        while read_len < dest.len()
            invariant
                read_len <= dest.len(),
                dest@.len() == d0.len(),
                read_len <= data_run_len(s),
                console@.input =~= s.skip(read_len as int),
                console@.echoed =~= w0 + data_run(s).take(read_len as int),
                dest@ =~= data_run(s).take(read_len as int) + d0.skip(read_len as int),
            decreases dest.len() - read_len,
        {
            let got = console_read_bytes(console);
            match got {
                Some(c) => {
                    proof {
                        lemma_data_run(s);
                        // the poll succeeded, so the run reaches past read_len
                        assert(s.skip(read_len as int)[0] == s[read_len as int]);
                        if read_len == data_run_len(s) {
                            assert(s[read_len as int] is None);
                        }
                        assert(read_len < data_run_len(s));
                        assert(s.skip(read_len as int).skip(1) =~= s.skip(read_len + 1));
                        assert(c == data_run(s)[read_len as int]);
                    }
                    dest.set(read_len, c);
                    read_len = read_len + 1;
                    proof {
                        assert(w0 + data_run(s).take(read_len as int) =~= (w0 + data_run(s).take(
                            read_len - 1,
                        )).push(data_run(s)[read_len - 1]));
                        assert(dest@ =~= data_run(s).take(read_len as int) + d0.skip(
                            read_len as int,
                        ));
                    }
                },
                None => {
                    proof {
                        lemma_data_run(s);
                        if s.skip(read_len as int).len() == 0 {
                            // script exhausted exactly at the end of the run
                            assert(read_len == s.len());
                            assert(data_run_len(s) == read_len);
                        } else {
                            // the run ends in an explicit empty poll, consumed too
                            assert(s.skip(read_len as int)[0] == s[read_len as int]);
                            assert(data_run_len(s) == read_len);
                            assert(console@.input =~= s.skip(read_len + 1));
                        }
                        assert(delivered(s, d0.len()) =~= data_run(s).take(read_len as int));
                    }
                    return Ok(read_len);
                },
            }
        }
        proof {
            lemma_data_run(s);
            assert(delivered(s, d0.len()) =~= data_run(s).take(read_len as int));
        }
        Ok(read_len)
    }
}

impl StdoutRaw {
    /// Raw write: forwards all bytes verbatim to the device and reports the
    /// full length written.
    pub fn write(&self, console: &mut Console, buf: &Vec<u8>) -> (r: Result<usize, StdioError>)
        ensures
            r matches Ok(n) && n == buf@.len(),
            final(console)@.echoed == old(console)@.echoed + buf@,
            final(console)@.input == old(console)@.input,
    {
        console_write_bytes(console, buf)
    }

    /// There is no internal write buffering, so flushing has nothing to do.
    pub fn flush(&self, console: &mut Console) -> (r: Result<(), StdioError>)
        ensures
            r matches Ok(u) && u == (),
            *final(console) == *old(console),
    {
        Ok(())
    }
}

} // verus!
