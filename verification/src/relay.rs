//! One-directional byte transfer: copy everything a readable capability
//! yields into a writable capability, chunk by chunk, until clean EOF or the
//! first failure. This is the unit of transfer the bidirectional proxy
//! races. Between streams that never fail, the relay is guaranteed to
//! succeed and to deliver the source's bytes exactly; a stream that fails
//! forces the matching error.

use vstd::prelude::*;

verus! {

/// At most this many bytes are in flight between one read and its write.
pub const BUF_SIZE: usize = 512;

/// Which half of a transfer failed first.
#[derive(Clone, Copy, PartialEq, Eq, Structural, Debug)]
pub enum TransferError {
    ReadFailed,
    WriteFailed,
}

/// A readable capability: an ordered stream of bytes ending in EOF, whose
/// reads may fail.
pub trait ByteSource {
    /// The bytes this source will still yield, in order.
    spec fn pending(&self) -> Seq<u8>;

    /// Whether the next read fails.
    spec fn read_fails(&self) -> bool;

    /// Whether this stream is beyond failure: no read of it, now or after
    /// any number of reads, will fail.
    spec fn never_fails(&self) -> bool;

    /// Read up to `max` bytes from the front of the stream; an empty chunk
    /// means clean EOF and is returned exactly when the stream is exhausted.
    /// A read fails only when the stream's failure flag stands, and a stream
    /// beyond failure stays so.
    fn read_chunk(&mut self, max: usize) -> (r: Result<Vec<u8>, TransferError>)
        requires
            max >= 1,
        ensures
            match r {
                Ok(chunk) => {
                    &&& !old(self).read_fails()
                    &&& chunk@.len() <= max
                    &&& chunk@.len() <= old(self).pending().len()
                    &&& chunk@ == old(self).pending().take(chunk@.len() as int)
                    &&& final(self).pending() == old(self).pending().skip(chunk@.len() as int)
                    &&& (chunk@.len() == 0 <==> old(self).pending().len() == 0)
                },
                Err(e) => {
                    &&& e is ReadFailed
                    &&& old(self).read_fails()
                    &&& final(self).read_fails()
                    &&& final(self).pending() == old(self).pending()
                },
            },
            old(self).never_fails() ==> r is Ok && final(self).never_fails(),
    ;
}

/// A writable capability: an append-only byte stream whose writes may fail.
pub trait ByteSink {
    /// Everything successfully written so far, in order.
    spec fn contents(&self) -> Seq<u8>;

    /// Whether the next write fails.
    spec fn write_fails(&self) -> bool;

    /// Whether this stream is beyond failure: no write to it, now or after
    /// any number of writes, will fail.
    spec fn never_fails(&self) -> bool;

    /// Write the whole chunk, or fail without any observable partial write.
    /// A write fails only when the stream's failure flag stands, and a
    /// stream beyond failure stays so.
    fn write_all_bytes(&mut self, chunk: &[u8]) -> (r: Result<(), TransferError>)
        ensures
            match r {
                Ok(()) => {
                    &&& !old(self).write_fails()
                    &&& final(self).contents() == old(self).contents() + chunk@
                },
                Err(e) => {
                    &&& e is WriteFailed
                    &&& old(self).write_fails()
                    &&& final(self).write_fails()
                    &&& final(self).contents() == old(self).contents()
                },
            },
            old(self).never_fails() ==> r is Ok && final(self).never_fails(),
    ;
}

/// Copy bytes from `src` to `sink` in chunks of at most `BUF_SIZE`, writing
/// each chunk out fully before the next read, until a read returns the empty
/// chunk (clean EOF) or either half fails. Between streams beyond failure
/// the relay succeeds outright, and on success the sink has received exactly
/// the bytes the source held, in order, the source read through EOF. A
/// source whose read already fails forces `ReadFailed` with nothing
/// delivered; a failing sink facing a non-empty, readable source forces
/// `WriteFailed`; on any failure the sink has received a prefix of the
/// source's bytes, in order.
pub fn relay<S: ByteSource, K: ByteSink>(src: &mut S, sink: &mut K) -> (r: Result<
    (),
    TransferError,
>)
    ensures
        r is Ok ==> {
            &&& final(src).pending().len() == 0
            &&& final(sink).contents() == old(sink).contents() + old(src).pending()
        },
        old(src).never_fails() && old(sink).never_fails() ==> {
            &&& r is Ok
            &&& final(src).never_fails()
            &&& final(sink).never_fails()
        },
        old(src).read_fails() ==> r == Err::<(), TransferError>(TransferError::ReadFailed)
            && final(sink).contents() == old(sink).contents(),
        !old(src).read_fails() && old(src).pending().len() > 0 && old(sink).write_fails() ==> r
            == Err::<(), TransferError>(TransferError::WriteFailed),
        r == Err::<(), TransferError>(TransferError::ReadFailed) ==> final(src).read_fails()
            && exists|k: int|
            {
                &&& 0 <= k <= old(src).pending().len()
                &&& final(sink).contents() == old(sink).contents() + old(src).pending().take(k)
                &&& final(src).pending() == old(src).pending().skip(k)
            },
        r == Err::<(), TransferError>(TransferError::WriteFailed) ==> final(sink).write_fails()
            && exists|k: int, m: int|
            #![trigger old(src).pending().take(k), old(src).pending().skip(k + m)]
            {
                &&& 0 <= k
                &&& 1 <= m <= BUF_SIZE
                &&& k + m <= old(src).pending().len()
                &&& final(sink).contents() == old(sink).contents() + old(src).pending().take(k)
                &&& final(src).pending() == old(src).pending().skip(k + m)
            },
{
    let ghost all = src.pending();
    let ghost sink0 = sink.contents();
    let ghost transferred: int = 0;
    loop
        invariant
            0 <= transferred <= all.len(),
            src.pending() == all.skip(transferred),
            sink.contents() == sink0 + all.take(transferred),
            all == old(src).pending(),
            sink0 == old(sink).contents(),
            old(src).never_fails() ==> src.never_fails(),
            old(sink).never_fails() ==> sink.never_fails(),
            old(src).read_fails() ==> transferred == 0 && src.read_fails() && sink.contents()
                == sink0,
            (!old(src).read_fails() && old(src).pending().len() > 0 && old(
                sink,
            ).write_fails()) ==> transferred == 0 && !src.read_fails() && sink.write_fails(),
        decreases all.len() - transferred,
    {
        let chunk = match src.read_chunk(BUF_SIZE) {
            Ok(c) => c,
            Err(_) => {
                proof {
                    assert(0 <= transferred <= all.len() && sink.contents() == sink0 + all.take(
                        transferred,
                    ) && src.pending() == all.skip(transferred));
                }
                return Err(TransferError::ReadFailed);
            },
        };
        if chunk.len() == 0 {
            proof {
                assert(all.skip(transferred).len() == 0);
                assert(transferred == all.len());
                assert(all.take(transferred) =~= all);
                assert(src.pending() =~= all.skip(transferred).skip(0));
            }
            return Ok(());
        }
        let ghost n = chunk@.len() as int;
        match sink.write_all_bytes(chunk.as_slice()) {
            Ok(()) => {},
            Err(_) => {
                proof {
                    assert(0 <= transferred && 1 <= n <= BUF_SIZE && transferred + n <= all.len()
                        && sink.contents() == sink0 + all.take(transferred) && src.pending()
                        == all.skip(transferred + n));
                }
                return Err(TransferError::WriteFailed);
            },
        }
        proof {
            assert(all.skip(transferred).take(n) == chunk@);
            assert(all.take(transferred) + all.skip(transferred).take(n) =~= all.take(
                transferred + n,
            ));
            assert(all.skip(transferred).skip(n) =~= all.skip(transferred + n));
            transferred = transferred + n;
        }
    }
}

/// An in-memory byte source over a fixed buffer, optionally failing once a
/// given number of bytes has been yielded.
pub struct MemSource {
    data: Vec<u8>,
    pos: usize,
    fail_from: Option<usize>,
}

impl MemSource {
    /// A source that yields exactly `data` and then reports clean EOF; none
    /// of its reads ever fails.
    pub fn new(data: Vec<u8>) -> (s: MemSource)
        ensures
            s.pending() == data@,
            !s.read_fails(),
            s.never_fails(),
    {
        let s = MemSource { data, pos: 0, fail_from: None };
        proof {
            assert(s.pending() =~= s.data@);
        }
        s
    }

    /// A source that yields `data`, except that any read at or past byte
    /// `ok_bytes` fails instead.
    pub fn failing_from(data: Vec<u8>, ok_bytes: usize) -> (s: MemSource)
        ensures
            s.pending() == data@,
            s.read_fails() <==> ok_bytes == 0,
            !s.never_fails(),
    {
        let s = MemSource { data, pos: 0, fail_from: Some(ok_bytes) };
        proof {
            assert(s.pending() =~= s.data@);
        }
        s
    }
}

impl ByteSource for MemSource {
    closed spec fn pending(&self) -> Seq<u8> {
        if self.pos <= self.data@.len() {
            self.data@.skip(self.pos as int)
        } else {
            Seq::empty()
        }
    }

    closed spec fn read_fails(&self) -> bool {
        match self.fail_from {
            Some(f) => self.pos >= f,
            None => false,
        }
    }

    closed spec fn never_fails(&self) -> bool {
        self.fail_from is None
    }

    fn read_chunk(&mut self, max: usize) -> (r: Result<Vec<u8>, TransferError>) {
        let failing = match self.fail_from {
            Some(f) => self.pos >= f,
            None => false,
        };
        if failing {
            return Err(TransferError::ReadFailed);
        }
        if self.pos >= self.data.len() {
            proof {
                assert(self.pending().len() == 0);
                assert(self.pending().take(0) =~= Seq::<u8>::empty());
                assert(self.pending().skip(0) =~= self.pending());
            }
            return Ok(Vec::new());
        }
        let available = self.data.len() - self.pos;
        let n = if max < available {
            max
        } else {
            available
        };
        let ghost p = self.pos as int;
        let mut chunk: Vec<u8> = Vec::new();
        let mut i: usize = 0;
        while i < n
            invariant
                i <= n,
                p == self.pos,
                p + n <= self.data@.len(),
                p + n <= usize::MAX,
                chunk@ =~= self.data@.subrange(p, p + i),
            decreases n - i,
        {
            chunk.push(self.data[self.pos + i]);
            i = i + 1;
        }
        proof {
            assert(chunk@ =~= self.pending().take(n as int));
            assert(self.data@.skip(p + n) =~= self.pending().skip(n as int));
        }
        self.pos = self.pos + n;
        Ok(chunk)
    }
}

/// An in-memory byte sink that records everything written, optionally
/// refusing every write.
pub struct MemSink {
    data: Vec<u8>,
    broken: bool,
}

impl MemSink {
    /// An empty sink that accepts every write; none of its writes ever
    /// fails.
    pub fn new() -> (s: MemSink)
        ensures
            s.contents() == Seq::<u8>::empty(),
            !s.write_fails(),
            s.never_fails(),
    {
        MemSink { data: Vec::new(), broken: false }
    }

    /// An empty sink whose every write fails.
    pub fn broken() -> (s: MemSink)
        ensures
            s.contents() == Seq::<u8>::empty(),
            s.write_fails(),
            !s.never_fails(),
    {
        MemSink { data: Vec::new(), broken: true }
    }

    /// Hand out everything that was written.
    pub fn into_bytes(self) -> (r: Vec<u8>)
        ensures
            r@ == self.contents(),
    {
        self.data
    }
}

impl ByteSink for MemSink {
    closed spec fn contents(&self) -> Seq<u8> {
        self.data@
    }

    closed spec fn write_fails(&self) -> bool {
        self.broken
    }

    closed spec fn never_fails(&self) -> bool {
        !self.broken
    }

    fn write_all_bytes(&mut self, chunk: &[u8]) -> (r: Result<(), TransferError>) {
        if self.broken {
            return Err(TransferError::WriteFailed);
        }
        let ghost old_data = self.data@;
        let mut i: usize = 0;
        while i < chunk.len()
            invariant
                i <= chunk@.len(),
                self.data@ =~= old_data + chunk@.take(i as int),
                !self.broken,
            decreases chunk@.len() - i,
        {
            let b = chunk[i];
            self.data.push(b);
            i = i + 1;
        }
        proof {
            assert(chunk@.take(chunk@.len() as int) =~= chunk@);
        }
        Ok(())
    }
}

} // verus!
