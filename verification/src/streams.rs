//! The capture streams of a run: an input that is never readable, and the
//! append-only, virtually-timestamped write log that stands in for stdout
//! and stderr.

use vstd::prelude::*;

use crate::text::{debug_quote, from_utf8_lossy_owned, lossy_of, padded8, quoted_of, u64_to_padded8};

verus! {

/// Why a stream operation failed.
#[derive(Debug, Clone, Copy, PartialEq, Eq, Structural)]
pub enum StreamError {
    /// The stream is closed.
    Closed,
    /// The operation is a host error and traps the guest.
    Trap,
}

/// The outcome of a stream operation.
pub type StreamResult<T> = Result<T, StreamError>;

/// The byte buffer type of the `bytes` crate, used as the payload of every
/// captured write.
#[verifier::external_type_specification]
#[verifier::external_body]
pub struct ExBytes(bytes::Bytes);

/// What a `bytes::Bytes` buffer holds.
pub uninterp spec fn bytes_view(b: bytes::Bytes) -> Seq<u8>;

/// Relies on Bytes's Deref to `[u8]` (its `as_slice`), and `slice::to_vec`:
/// the slice is the buffer's contents.
#[verifier::external_body]
fn bytes_to_vec(b: &bytes::Bytes) -> (v: Vec<u8>)
    ensures
        v@ == bytes_view(*b),
{
    b.as_ref().to_vec()
}

/// The stdin of a guest: never ready, never readable.  A read can only be
/// reached by a host bug, and traps.
pub struct NeverReadable;

impl NeverReadable {
    /// Reading never succeeds.
    pub fn read(&mut self, len: usize) -> (r: StreamResult<bytes::Bytes>)
        ensures
            r == Err::<bytes::Bytes, StreamError>(StreamError::Trap),
    {
        let _ = len;
        Err(StreamError::Trap)
    }
}

/// One line of the report: the write's virtual time, zero-padded, a space,
/// the payload quoted, and a line break.
pub open spec fn line_of(t: u64, payload: Seq<u8>) -> Seq<u8> {
    padded8(t as nat) + seq![32u8] + quoted_of(lossy_of(payload)) + seq![10u8]
}

/// The report lines of a whole log, in order.
pub open spec fn lines_of(log: Seq<(u64, Seq<u8>)>) -> Seq<u8>
    decreases log.len(),
{
    if log.len() == 0 {
        Seq::empty()
    } else {
        line_of(log[0].0, log[0].1) + lines_of(log.skip(1))
    }
}

/// Appending one entry appends its line.
pub proof fn lemma_lines_snoc(log: Seq<(u64, Seq<u8>)>, x: (u64, Seq<u8>))
    ensures
        lines_of(log.push(x)) =~= lines_of(log) + line_of(x.0, x.1),
    decreases log.len(),
{
    let snoc = log.push(x);
    assert(snoc.len() > 0);
    assert(lines_of(snoc) == line_of(snoc[0].0, snoc[0].1) + lines_of(snoc.skip(1)));
    if log.len() == 0 {
        assert(snoc[0] == x);
        assert(snoc.skip(1) =~= Seq::<(u64, Seq<u8>)>::empty());
        assert(lines_of(snoc.skip(1)) =~= Seq::<u8>::empty());
    } else {
        assert(snoc[0] == log[0]);
        assert(snoc.skip(1) =~= log.skip(1).push(x));
        lemma_lines_snoc(log.skip(1), x);
        assert(lines_of(snoc) =~= line_of(log[0].0, log[0].1) + (lines_of(log.skip(1)) + line_of(
            x.0,
            x.1,
        )));
    }
}

/// An append-only sink that records, for each write, the virtual time it
/// happened at and the bytes written.  It never rejects a write.
pub struct TimestampedWrites {
    log: Vec<(u64, bytes::Bytes)>,
}

impl TimestampedWrites {
    /// The recorded writes: time and contents, in order.
    pub closed spec fn log_model(&self) -> Seq<(u64, Seq<u8>)> {
        self.log@.map_values(|p: (u64, bytes::Bytes)| (p.0, bytes_view(p.1)))
    }

    /// An empty log.
    pub fn new() -> (r: TimestampedWrites)
        ensures
            r.log_model() =~= Seq::<(u64, Seq<u8>)>::empty(),
    {
        TimestampedWrites { log: Vec::new() }
    }

    /// The sink accepts any amount.
    pub fn check_write(&self) -> (r: StreamResult<usize>)
        ensures
            r == Ok::<usize, StreamError>(usize::MAX),
    {
        Ok(usize::MAX)
    }

    /// Record one write at virtual time `now`.
    pub fn write(&mut self, now: u64, contents: bytes::Bytes) -> (r: StreamResult<()>)
        ensures
            r is Ok,
            final(self).log_model() =~= old(self).log_model().push((now, bytes_view(contents))),
    {
        self.log.push((now, contents));
        Ok(())
    }

    /// Nothing is buffered, so flushing has nothing to do.
    pub fn flush(&mut self) -> (r: StreamResult<()>)
        ensures
            r is Ok,
            final(self).log_model() == old(self).log_model(),
    {
        Ok(())
    }

    /// The report of every write, one line each: the virtual time,
    /// zero-padded to eight places, then the payload as quoted text.
    pub fn report_bytes(&self) -> (r: Vec<u8>)
        ensures
            r@ =~= lines_of(self.log_model()),
    {
        let ghost model = self.log_model();
        let mut r: Vec<u8> = Vec::new();
        let mut i: usize = 0;
        while i < self.log.len()
            invariant
                i <= self.log@.len(),
                model == self.log_model(),
                r@ =~= lines_of(model.take(i as int)),
            decreases self.log@.len() - i,
        {
            let entry = &self.log[i];
            let mut line = u64_to_padded8(entry.0);
            line.push(32);
            let payload = bytes_to_vec(&entry.1);
            let mut quoted = debug_quote(from_utf8_lossy_owned(&payload).as_str());
            line.append(&mut quoted);
            line.push(10);
            proof {
                assert(line@ =~= line_of(model[i as int].0, model[i as int].1));
                assert(model.take(i + 1) =~= model.take(i as int).push(model[i as int]));
                lemma_lines_snoc(model.take(i as int), model[i as int]);
            }
            r.append(&mut line);
            i += 1;
        }
        proof {
            assert(model.take(model.len() as int) =~= model);
        }
        r
    }
}

} // verus!
