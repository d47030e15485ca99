//! The composable I/O capability model.
//!
//! `Read` and `Write` are orthogonal capability interfaces over a byte stream;
//! each carries a ghost model of the bytes still to be delivered (`data`) or
//! accepted so far (`sunk`), and every contract is stated against that model.
//! `Chain` and `Take` are composition adapters that are themselves `Read`
//! implementations, so they nest arbitrarily.

use vstd::prelude::*;

use crate::kernel::result::{KernelError, KernelResult};

verus! {

/// A read or write source reported no progress when more was required.
#[derive(Clone, Copy, Debug, PartialEq, Eq, Structural)]
pub struct EndOfFile;

/// An access outside the bounds of a buffer or register window.
#[derive(Clone, Copy, Debug, PartialEq, Eq, Structural)]
pub struct OutOfBounds;

/// Formatted output failed for a reason other than an I/O error.
#[derive(Clone, Copy, Debug, PartialEq, Eq, Structural)]
pub struct FormatError;

/// Capability to read bytes from a source.
pub trait Read {
    /// The bytes this source will still deliver, in order.
    spec fn data(&self) -> Seq<u8>;

    /// Deliver at most `max` of the source's next bytes, in order.
    ///
    /// An empty result for a request of one byte or more means the source has
    /// no more data to deliver right now; for the sources of this crate that
    /// is permanent exhaustion of the modelled stream.
    fn read(&mut self, max: usize) -> (r: Result<Vec<u8>, KernelError>)
        ensures
            match r {
                Ok(bytes) => {
                    &&& bytes@.len() <= max
                    &&& bytes@.len() <= old(self).data().len()
                    &&& bytes@ == old(self).data().take(bytes@.len() as int)
                    &&& final(self).data() == old(self).data().skip(bytes@.len() as int)
                    &&& (bytes@.len() == 0 && max > 0 ==> old(self).data().len() == 0)
                },
                Err(_) => final(self).data() == old(self).data(),
            },
    ;

    /// Deliver exactly `count` bytes, or fail the moment the source reports
    /// no progress, converting that into the unified `EndOfFile` error.
    /// There is no partial success: a short stream yields an error, never a
    /// short result.
    fn read_exact(&mut self, count: usize) -> (r: Result<Vec<u8>, KernelError>)
        ensures
            count == 0 ==> r is Ok,
            match r {
                Ok(bytes) => {
                    &&& count <= old(self).data().len()
                    &&& bytes@ == old(self).data().take(count as int)
                    &&& final(self).data() == old(self).data().skip(count as int)
                },
                Err(_) => exists|k: int|
                    0 <= k <= old(self).data().len() && final(self).data() == old(
                        self,
                    ).data().skip(k),
            },
    {
        let mut bytes: Vec<u8> = Vec::new();
        while bytes.len() < count
            invariant
                bytes@.len() <= count,
                bytes@.len() <= old(self).data().len(),
                bytes@ == old(self).data().take(bytes@.len() as int),
                self.data() == old(self).data().skip(bytes@.len() as int),
            decreases count - bytes@.len(),
        {
            let ghost done = bytes@.len() as int;
            match self.read(count - bytes.len()) {
                Err(e) => {
                    return Err(e);
                },
                Ok(mut chunk) => {
                    if chunk.len() == 0 {
                        return Err(KernelError::from_end_of_file(EndOfFile));
                    }
                    let ghost got = chunk@.len() as int;
                    bytes.append(&mut chunk);
                    proof {
                        let d = old(self).data();
                        assert(d.take(done + got) =~= d.take(done) + d.skip(done).take(got));
                        assert(d.skip(done).skip(got) =~= d.skip(done + got));
                    }
                },
            }
        }
        Ok(bytes)
    }

}

/// Capability to write bytes into a sink.
pub trait Write {
    /// The bytes this sink has accepted so far, in order.
    spec fn sunk(&self) -> Seq<u8>;

    /// Offer `buf` to the sink; on success the result counts how many of its
    /// leading bytes the sink accepted. Accepting none of a non-empty `buf`
    /// signals a stalled sink.
    fn write(&mut self, buf: &[u8]) -> (r: Result<usize, KernelError>)
        ensures
            match r {
                Ok(n) => {
                    &&& n <= buf@.len()
                    &&& final(self).sunk() == old(self).sunk() + buf@.take(n as int)
                },
                Err(_) => final(self).sunk() == old(self).sunk(),
            },
    ;

    /// Drain all of `buf` into the sink, or fail the moment the sink accepts
    /// nothing, converting that stall into the unified `EndOfFile` error.
    /// There is no silent partial success: on success every byte was accepted.
    fn write_all(&mut self, buf: &[u8]) -> (r: KernelResult)
        ensures
            buf@.len() == 0 ==> r is Ok,
            match r {
                Ok(_) => final(self).sunk() == old(self).sunk() + buf@,
                Err(_) => exists|k: int|
                    0 <= k <= buf@.len() && final(self).sunk() == old(self).sunk() + buf@.take(k),
            },
    {
        let mut done: usize = 0;
        while done < buf.len()
            invariant
                done <= buf@.len(),
                self.sunk() == old(self).sunk() + buf@.take(done as int),
            decreases buf@.len() - done,
        {
            let rest = vstd::slice::slice_subrange(buf, done, buf.len());
            match self.write(rest) {
                Err(e) => {
                    return Err(e);
                },
                Ok(n) => {
                    if n == 0 {
                        return Err(KernelError::from_end_of_file(EndOfFile));
                    }
                    proof {
                        assert(buf@.take(done + n) =~= buf@.take(done as int) + buf@.subrange(
                            done as int,
                            buf@.len() as int,
                        ).take(n as int));
                    }
                    done = done + n;
                },
            }
        }
        proof {
            assert(buf@.take(done as int) =~= buf@);
        }
        Ok(())
    }
}

/// Decide what a formatted-write operation surfaces once the formatter has
/// run: an I/O error captured while forwarding text fragments wins over the
/// formatter's own generic failure signal, and a formatter failure with no
/// captured I/O error is reported as `FormatError` rather than swallowed.
pub fn resolve_fmt_error(fmt_ok: bool, captured: Option<KernelError>) -> (r: KernelResult)
    ensures
        match captured {
            Some(e) => r == Err::<(), KernelError>(e),
            None => if fmt_ok {
                r is Ok
            } else {
                r == Err::<(), KernelError>(KernelError::FormatError)
            },
        },
{
    match captured {
        Some(e) => Err(e),
        None => if fmt_ok {
            Ok(())
        } else {
            Err(KernelError::from_format_error(FormatError))
        },
    }
}

/// Reads exhaustively from `first` until it reports exhaustion, then
/// permanently switches to `second`; `first` is never read again.
pub struct Chain<T, U> {
    pub first: T,
    pub second: U,
    pub done_first: bool,
}

impl<T, U> Chain<T, U> {
    /// Adapter that will deliver `first`'s bytes, then `second`'s.
    pub fn new(first: T, second: U) -> (c: Chain<T, U>)
        ensures
            c.first == first,
            c.second == second,
            !c.done_first,
    {
        Chain { first, second, done_first: false }
    }
}

impl<T: Read, U: Read> Read for Chain<T, U> {
    open spec fn data(&self) -> Seq<u8> {
        if self.done_first {
            self.second.data()
        } else {
            self.first.data() + self.second.data()
        }
    }

    /// Bytes come only from `first` until `first` reports exhaustion exactly
    /// once; from then on they come only from `second`.
    fn read(&mut self, max: usize) -> (r: Result<Vec<u8>, KernelError>)
        ensures
            max == 0 ==> r is Ok,
            old(self).done_first ==> final(self).done_first && final(self).first == old(
                self,
            ).first,
            !old(self).done_first && max > 0 && (r matches Ok(b) && b@.len() == 0)
                ==> final(self).done_first,
            !old(self).done_first && !final(self).done_first ==> final(self).second == old(
                self,
            ).second,
            !old(self).done_first && final(self).done_first ==> old(self).first.data().len() == 0
                && final(self).first.data() == old(self).first.data(),
    {
        if max == 0 {
            let empty: Vec<u8> = Vec::new();
            proof {
                assert(empty@ =~= old(self).data().take(0));
                assert(old(self).data().skip(0) =~= old(self).data());
            }
            return Ok(empty);
        }
        if !self.done_first {
            let ghost d = old(self).data();
            match self.first.read(max) {
                Err(e) => {
                    return Err(e);
                },
                Ok(b) => {
                    if b.len() > 0 {
                        proof {
                            let n = b@.len() as int;
                            assert(b@ =~= d.take(n));
                            assert(self.first.data() + self.second.data() =~= d.skip(n));
                        }
                        return Ok(b);
                    }
                    self.done_first = true;
                },
            }
        }
        let ghost d = old(self).data();
        let ghost mid = self.data();
        match self.second.read(max) {
            Err(e) => {
                proof {
                    assert(d =~= mid);
                }
                Err(e)
            },
            Ok(b) => {
                proof {
                    assert(d =~= mid);
                    let n = b@.len() as int;
                    assert(b@ =~= d.take(n));
                    assert(self.second.data() =~= d.skip(n));
                }
                Ok(b)
            },
        }
    }
}

/// Caps the total bytes ever delivered across the adapter's lifetime at the
/// budget it was built with; once the remaining budget is `0`, reads return
/// nothing without touching the inner source.
pub struct Take<T> {
    pub inner: T,
    pub limit: u64,
}

impl<T> Take<T> {
    /// Adapter that will deliver at most `limit` of `inner`'s bytes.
    pub fn new(inner: T, limit: u64) -> (t: Take<T>)
        ensures
            t.inner == inner,
            t.limit == limit,
    {
        Take { inner, limit }
    }

    /// The remaining byte budget.
    pub fn limit(&self) -> (l: u64)
        ensures
            l == self.limit,
    {
        self.limit
    }
}

impl<T: Read> Read for Take<T> {
    open spec fn data(&self) -> Seq<u8> {
        if self.limit <= self.inner.data().len() {
            self.inner.data().take(self.limit as int)
        } else {
            self.inner.data()
        }
    }

    /// Every successful read decrements the remaining budget by exactly the
    /// number of bytes delivered, so the total over the adapter's lifetime
    /// never exceeds the budget it was built with; an exhausted budget
    /// delivers nothing, forever, without touching the inner source.
    fn read(&mut self, max: usize) -> (r: Result<Vec<u8>, KernelError>)
        ensures
            old(self).limit == 0 ==> *final(self) == *old(self) && (r matches Ok(b) && b@.len()
                == 0),
            match r {
                Ok(b) => b@.len() <= old(self).limit && final(self).limit == old(self).limit
                    - b@.len(),
                Err(_) => final(self).limit == old(self).limit,
            },
    {
        if self.limit == 0 {
            let empty: Vec<u8> = Vec::new();
            proof {
                assert(empty@ =~= old(self).data().take(0));
                assert(old(self).data().skip(0) =~= old(self).data());
            }
            return Ok(empty);
        }
        let m: usize = if (max as u64) <= self.limit {
            max
        } else {
            self.limit as usize
        };
        let ghost d = old(self).data();
        match self.inner.read(m) {
            Err(e) => Err(e),
            Ok(b) => {
                proof {
                    let n = b@.len() as int;
                    assert(b@ =~= d.take(n));
                }
                self.limit = self.limit - (b.len() as u64);
                proof {
                    let n = b@.len() as int;
                    assert(self.data() =~= d.skip(n));
                }
                Ok(b)
            },
        }
    }
}

} // verus!
