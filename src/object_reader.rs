use vstd::prelude::*;

verus! {

/// Bytes asked for by one refill of the read-ahead buffer: 16 MiB.
pub const OBJECT_READER_MAX_BUF_SIZE: usize = 1024 * 1024 * 16;

/// The abstract state of a reader.
pub struct ReaderView {
    /// Offset in the remote object at which the next refill starts.
    pub cursor: nat,
    /// Bytes fetched and not yet delivered, in order.
    pub pending: Seq<u8>,
    /// A refill returned less than a full chunk: the object has no more bytes.
    pub exhausted: bool,
    /// The capacity of the read-ahead buffer, and so the length of each fetch.
    pub chunk_size: nat,
}

/// An inclusive range of byte offsets, as in `bytes=<first>-<last>`.
#[derive(Clone, Copy, Debug, PartialEq, Eq, Structural)]
pub struct ByteRange {
    pub first: u64,
    pub last: u64,
}

/// What a reader needs after serving from its buffer.
#[derive(Clone, Copy, Debug, PartialEq, Eq, Structural)]
pub enum ReadStep {
    /// The read is over: this many bytes stand in the caller's output.
    Delivered(usize),
    /// The buffer is drained and more bytes are wanted: fetch this range and
    /// hand its bytes to `refill`.
    Fetch(ByteRange),
}

/// A reader that has served nothing and fetched nothing.
pub open spec fn initial_view(chunk_size: nat) -> ReaderView {
    ReaderView { cursor: 0, pending: Seq::empty(), exhausted: false, chunk_size }
}

/// How many buffered bytes a request with `room` bytes left to fill takes.
pub open spec fn served(v: ReaderView, room: nat) -> nat {
    if room < v.pending.len() {
        room
    } else {
        v.pending.len()
    }
}

/// The state after serving up to `room` bytes from the buffer.
pub open spec fn after_serve(v: ReaderView, room: nat) -> ReaderView {
    ReaderView { pending: v.pending.skip(served(v, room) as int), ..v }
}

/// The state after a fetch starting at the cursor returned `chunk`: the chunk
/// replaces the buffer and the cursor moves by its length; a short chunk marks
/// the end of the object.
pub open spec fn after_refill(v: ReaderView, chunk: Seq<u8>) -> ReaderView {
    ReaderView {
        cursor: v.cursor + chunk.len(),
        pending: chunk,
        exhausted: chunk.len() < v.chunk_size,
        chunk_size: v.chunk_size,
    }
}

/// The range that the next refill asks for: one chunk from the cursor on,
/// its end held to the largest offset.
pub open spec fn next_range(v: ReaderView) -> ByteRange {
    ByteRange {
        first: v.cursor as u64,
        last: if v.cursor + v.chunk_size - 1 <= u64::MAX {
            (v.cursor + v.chunk_size - 1) as u64
        } else {
            u64::MAX
        },
    }
}

/// A synchronous pull reader over a remote object, served from a fixed
/// read-ahead buffer that is refilled by one ranged fetch at a time.
pub struct S3ObjectReader {
    bucket_name: String,
    object_name: String,
    current_object_byte_offset: u64,
    buf: Vec<u8>,
    buf_byte_offset: usize,
    buf_bytes_available: usize,
    exhausted: bool,
}

impl View for S3ObjectReader {
    type V = ReaderView;

    closed spec fn view(&self) -> ReaderView {
        ReaderView {
            cursor: self.current_object_byte_offset as nat,
            pending: self.buf@.subrange(
                self.buf_byte_offset as int,
                self.buf_byte_offset + self.buf_bytes_available,
            ),
            exhausted: self.exhausted,
            chunk_size: self.buf@.len(),
        }
    }
}

impl S3ObjectReader {
    /// The buffer has room for one chunk and the unread window lies inside it.
    pub closed spec fn wf(&self) -> bool {
        &&& self.buf@.len() > 0
        &&& self.buf_byte_offset + self.buf_bytes_available <= self.buf@.len()
    }

    pub closed spec fn bucket_spec(&self) -> Seq<char> {
        self.bucket_name@
    }

    pub closed spec fn object_spec(&self) -> Seq<char> {
        self.object_name@
    }

    /// A reader over `bucket_name`/`object_name` with a 16 MiB buffer.
    pub fn new(bucket_name: String, object_name: String) -> (r: Self)
        ensures
            r.wf(),
            r@ == initial_view(OBJECT_READER_MAX_BUF_SIZE as nat),
            r.bucket_spec() == bucket_name@,
            r.object_spec() == object_name@,
    {
        Self::with_chunk_size(bucket_name, object_name, OBJECT_READER_MAX_BUF_SIZE)
    }

    /// A reader whose buffer, and so each fetch, holds `chunk_size` bytes.
    pub fn with_chunk_size(bucket_name: String, object_name: String, chunk_size: usize) -> (r:
        Self)
        requires
            chunk_size > 0,
        ensures
            r.wf(),
            r@ == initial_view(chunk_size as nat),
            r.bucket_spec() == bucket_name@,
            r.object_spec() == object_name@,
    {
        let r = S3ObjectReader {
            bucket_name,
            object_name,
            current_object_byte_offset: 0,
            buf: vec![0u8; chunk_size],
            buf_byte_offset: 0,
            buf_bytes_available: 0,
            exhausted: false,
        };
        assert(r@.pending =~= Seq::<u8>::empty());
        r
    }

    pub fn bucket_name(&self) -> (r: &String)
        ensures
            r@ == self.bucket_spec(),
    {
        &self.bucket_name
    }

    pub fn object_name(&self) -> (r: &String)
        ensures
            r@ == self.object_spec(),
    {
        &self.object_name
    }

    /// Offset in the object at which the next refill starts.
    pub fn stream_cursor(&self) -> (r: u64)
        ensures
            r as nat == self@.cursor,
    {
        self.current_object_byte_offset
    }

    /// Serves buffered bytes into `out` until it holds `want` bytes or the
    /// buffer is drained, then says whether the read is over or which range
    /// must be fetched first. The read is over when `out` is full or the
    /// object is exhausted.
    pub fn read_step(&mut self, out: &mut Vec<u8>, want: usize) -> (r: ReadStep)
        requires
            old(self).wf(),
            old(out)@.len() <= want,
        ensures
            final(self).wf(),
            final(self).bucket_spec() == old(self).bucket_spec(),
            final(self).object_spec() == old(self).object_spec(),
            final(self)@ == after_serve(old(self)@, (want - old(out)@.len()) as nat),
            final(out)@ == old(out)@ + old(self)@.pending.take(
                served(old(self)@, (want - old(out)@.len()) as nat) as int,
            ),
            r == (if final(out)@.len() == want || old(self)@.exhausted {
                ReadStep::Delivered(final(out)@.len() as usize)
            } else {
                ReadStep::Fetch(next_range(final(self)@))
            }),
    {
        let room = want - out.len();
        let n = if room < self.buf_bytes_available {
            room
        } else {
            self.buf_bytes_available
        };
        let ghost out0 = out@;
        let ghost pend0 = self@.pending;
        let start = self.buf_byte_offset;
        let cap = self.buf.len();
        let mut i: usize = 0;
        while i < n
            invariant
                self.wf(),
                n <= self.buf_bytes_available,
                start == self.buf_byte_offset,
                cap == self.buf@.len(),
                i <= n,
                pend0 == self@.pending,
                out@ == out0 + pend0.take(i as int),
            decreases n - i,
        {
            out.push(self.buf[start + i]);
            proof {
                assert(pend0.take(i + 1) =~= pend0.take(i as int).push(pend0[i as int]));
            }
            i = i + 1;
        }
        self.buf_byte_offset = self.buf_byte_offset + n;
        self.buf_bytes_available = self.buf_bytes_available - n;
        assert(self@.pending =~= pend0.skip(n as int));
        if out.len() == want || self.exhausted {
            ReadStep::Delivered(out.len())
        } else {
            let last = if self.current_object_byte_offset <= u64::MAX - (self.buf.len() as u64 - 1) {
                self.current_object_byte_offset + (self.buf.len() as u64 - 1)
            } else {
                u64::MAX
            };
            ReadStep::Fetch(ByteRange { first: self.current_object_byte_offset, last })
        }
    }

    /// Replaces the drained buffer with the bytes that fetching `next_range`
    /// returned.
    pub fn refill(&mut self, chunk: &[u8])
        requires
            old(self).wf(),
            old(self)@.pending.len() == 0,
            !old(self)@.exhausted,
            chunk@.len() <= old(self)@.chunk_size,
            old(self)@.cursor + chunk@.len() <= u64::MAX,
        ensures
            final(self).wf(),
            final(self).bucket_spec() == old(self).bucket_spec(),
            final(self).object_spec() == old(self).object_spec(),
            final(self)@ == after_refill(old(self)@, chunk@),
    {
        let n = chunk.len();
        let mut i: usize = 0;
        while i < n
            invariant
                i <= n,
                n == chunk@.len(),
                n <= self.buf@.len(),
                self.buf@.len() == old(self).buf@.len(),
                self.buf@.take(i as int) =~= chunk@.take(i as int),
                self.bucket_name == old(self).bucket_name,
                self.object_name == old(self).object_name,
                self.current_object_byte_offset == old(self).current_object_byte_offset,
                self.current_object_byte_offset + n <= u64::MAX,
            decreases n - i,
        {
            self.buf[i] = chunk[i];
            proof {
                assert(self.buf@.take(i + 1) =~= chunk@.take(i + 1));
            }
            i = i + 1;
        }
        self.buf_byte_offset = 0;
        self.buf_bytes_available = n;
        self.current_object_byte_offset = self.current_object_byte_offset + n as u64;
        self.exhausted = n < self.buf.len();
        assert(self@.pending =~= chunk@);
    }
}

} // verus!
