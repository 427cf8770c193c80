use crate::tcp_connection::IoOutcome;
use bytes::BytesMut;
use std::ops::Deref;
use std::ops::DerefMut;
use vstd::prelude::*;
use vstd::slice::slice_subrange;
use vstd::slice::slice_to_vec;
use vstd::string::StringSliceAdditionalSpecFns;

verus! {

/// Readable room that a buffer made by `Buffer::new` starts with.
pub const INITIAL_SIZE: usize = 1024;

/// Bytes kept free in front of the readable region for the whole life of a buffer.
pub const PREPEND_SIZE: usize = 8;

/// Size of the scratch region for the one extra socket read that follows a read
/// which filled the writable tail.
pub const EXTRA_READ_SIZE: usize = 65536;

/// The byte store of the `bytes` crate, which the verifier takes as a whole.
#[verifier::external_type_specification]
#[verifier::external_body]
pub struct ExBytesMut(BytesMut);

/// The bytes that a `BytesMut` currently holds, first to last.
pub uninterp spec fn stored_bytes(store: BytesMut) -> Seq<u8>;

/// What `String::from_utf8_lossy` makes of a byte sequence.
pub uninterp spec fn utf8_lossy(bytes: Seq<u8>) -> Seq<char>;

/// `text` is what the lossy conversion makes of `bytes`; where the bytes are valid
/// UTF-8, that is the text which they encode.
pub open spec fn is_text_of(text: Seq<char>, bytes: Seq<u8>) -> bool {
    &&& text == utf8_lossy(bytes)
    &&& vstd::utf8::valid_utf8(bytes) ==> text == vstd::utf8::decode_utf8(bytes)
}

/// `BytesMut::with_capacity`: the new store holds no bytes, whatever the capacity.
/// Capacities above `isize::MAX` make the allocation panic and are left out.
#[verifier::external_body]
fn store_with_capacity(capacity: usize) -> (store: BytesMut)
    requires
        capacity <= isize::MAX,
    ensures
        stored_bytes(store) == Seq::<u8>::empty(),
{
    BytesMut::with_capacity(capacity)
}

/// `BytesMut::len`: the number of bytes held.
#[verifier::external_body]
fn store_len(store: &BytesMut) -> (len: usize)
    ensures
        len == stored_bytes(*store).len(),
{
    store.len()
}

/// `BytesMut::resize`: a longer length keeps every byte and fills the new tail with
/// `value`; a shorter one keeps the first `new_len` bytes. Lengths above `isize::MAX`
/// make the allocation panic and are left out.
#[verifier::external_body]
fn store_resize(store: &mut BytesMut, new_len: usize, value: u8)
    requires
        new_len <= isize::MAX,
    ensures
        stored_bytes(*final(store)).len() == new_len,
        forall|i: int|
            0 <= i < new_len && i < stored_bytes(*old(store)).len() ==> stored_bytes(
                *final(store),
            )[i] == stored_bytes(*old(store))[i],
        forall|i: int|
            stored_bytes(*old(store)).len() <= i < new_len ==> stored_bytes(*final(store))[i]
                == value,
{
    store.resize(new_len, value)
}

/// `Deref::deref` of `BytesMut`: the held bytes as a slice.
#[verifier::external_body]
fn store_slice(store: &BytesMut) -> (slice: &[u8])
    ensures
        slice@ == stored_bytes(*store),
{
    store.deref()
}

/// `DerefMut::deref_mut` of `BytesMut`: the held bytes as a slice that can be written.
/// What the slice holds when the borrow ends is what the store holds.
#[verifier::external_body]
fn store_slice_mut(store: &mut BytesMut) -> (slice: &mut [u8])
    ensures
        slice@ == stored_bytes(*old(store)),
        stored_bytes(*final(store)) == final(slice)@,
{
    store.deref_mut()
}

/// Indexing a `BytesMut` from `start` on, for writing: the held bytes from that offset
/// as a slice, which keeps its length. The bytes in front of it stay as they are, and
/// what the slice holds when the borrow ends is what the store holds behind them.
#[verifier::external_body]
fn store_tail_mut(store: &mut BytesMut, start: usize) -> (tail: &mut [u8])
    requires
        start <= stored_bytes(*old(store)).len(),
    ensures
        tail@ == stored_bytes(*old(store)).subrange(
            start as int,
            stored_bytes(*old(store)).len() as int,
        ),
        final(tail)@.len() == tail@.len(),
        stored_bytes(*final(store)) == stored_bytes(*old(store)).subrange(0, start as int)
            + final(tail)@,
{
    &mut store[start..]
}

/// `String::from_utf8_lossy`, made an owned `String`. The result depends on the bytes
/// alone; bytes that are valid UTF-8 are decoded as they stand.
#[verifier::external_body]
fn string_from_utf8_lossy(bytes: &[u8]) -> (text: String)
    ensures
        text@ == utf8_lossy(bytes@),
        vstd::utf8::valid_utf8(bytes@) ==> text@ == vstd::utf8::decode_utf8(bytes@),
{
    String::from_utf8_lossy(bytes).into_owned()
}

/// `pattern` stands in `hay` at offset `at`.
pub open spec fn occurs_at(hay: Seq<u8>, pattern: Seq<u8>, at: int) -> bool {
    &&& 0 <= at
    &&& at + pattern.len() <= hay.len()
    &&& hay.subrange(at, at + pattern.len()) == pattern
}

/// `at` is the leftmost offset at which the non-empty `pattern` stands in `hay`.
pub open spec fn is_first_match(hay: Seq<u8>, pattern: Seq<u8>, at: int) -> bool {
    &&& pattern.len() > 0
    &&& occurs_at(hay, pattern, at)
    &&& forall|j: int| 0 <= j < at ==> !occurs_at(hay, pattern, j)
}

/// The leftmost offset of a non-empty `pattern` in `hay`, if it occurs at all.
/// An empty pattern is never found.
pub open spec fn first_match(hay: Seq<u8>, pattern: Seq<u8>) -> Option<int> {
    if exists|at: int| is_first_match(hay, pattern, at) {
        Some(choose|at: int| is_first_match(hay, pattern, at))
    } else {
        None
    }
}

/// A leftmost offset is the only one: `first_match` names it.
pub proof fn lemma_first_match_is(hay: Seq<u8>, pattern: Seq<u8>, at: int)
    requires
        is_first_match(hay, pattern, at),
    ensures
        first_match(hay, pattern) == Some(at),
{
    let c = choose|c: int| is_first_match(hay, pattern, c);
    assert(is_first_match(hay, pattern, c));
    if c < at {
        assert(!occurs_at(hay, pattern, c));
    } else if at < c {
        assert(!occurs_at(hay, pattern, at));
    }
}

/// A growable byte region with a fixed reserve in front, a reader cursor and a
/// writer cursor. The bytes between the two cursors are the readable ones; they are
/// the buffer's view.
pub struct Buffer {
    buffer: BytesMut,
    reader_index: usize,
    writer_index: usize,
}

impl View for Buffer {
    type V = Seq<u8>;

    closed spec fn view(&self) -> Seq<u8> {
        stored_bytes(self.buffer).subrange(self.reader_index as int, self.writer_index as int)
    }
}

impl Buffer {
    /// Length of the whole region, reserve included.
    pub closed spec fn capacity(&self) -> nat {
        stored_bytes(self.buffer).len()
    }

    /// Offset of the first readable byte.
    pub closed spec fn reader(&self) -> nat {
        self.reader_index as nat
    }

    /// Offset one past the last readable byte.
    pub closed spec fn writer(&self) -> nat {
        self.writer_index as nat
    }

    /// The bytes behind the writer cursor, which a write may overwrite.
    pub closed spec fn tail(&self) -> Seq<u8> {
        stored_bytes(self.buffer).subrange(
            self.writer_index as int,
            stored_bytes(self.buffer).len() as int,
        )
    }

    /// The cursors are in order and inside the region.
    pub closed spec fn wf(&self) -> bool {
        &&& PREPEND_SIZE <= self.reader_index
        &&& self.reader_index <= self.writer_index
        &&& self.writer_index <= stored_bytes(self.buffer).len()
        &&& stored_bytes(self.buffer).len() <= isize::MAX
    }

    /// Room for `len` more bytes can be made: either free space suffices, or the
    /// region can grow by `len` within what an allocation may hold.
    pub open spec fn can_take(&self, len: nat) -> bool {
        ||| (self.capacity() - self.writer()) + (self.reader() - PREPEND_SIZE) >= len
        ||| self.capacity() + len <= isize::MAX
    }

    /// `self` is `before` with the first `len` readable bytes consumed: the reader
    /// moved on by `len`, or both cursors went back to the reserve when nothing
    /// readable was left.
    pub open spec fn consumed_from(&self, before: &Buffer, len: nat) -> bool {
        &&& self.wf()
        &&& self.capacity() == before.capacity()
        &&& self@ == before@.subrange(len as int, before@.len() as int)
        &&& if len == before@.len() {
            self.reader() == PREPEND_SIZE && self.writer() == PREPEND_SIZE
        } else {
            self.reader() == before.reader() + len && self.writer() == before.writer()
        }
    }

    /// `self` has the cursors, the size and the readable bytes of `before`.
    pub open spec fn same_as(&self, before: &Buffer) -> bool {
        &&& self.wf()
        &&& self.capacity() == before.capacity()
        &&& self.reader() == before.reader()
        &&& self.writer() == before.writer()
        &&& self@ == before@
    }

    /// An empty buffer with `INITIAL_SIZE` bytes of room behind the reserve.
    pub fn new() -> (buffer: Buffer)
        ensures
            buffer.wf(),
            buffer@ == Seq::<u8>::empty(),
            buffer.reader() == PREPEND_SIZE,
            buffer.writer() == PREPEND_SIZE,
            buffer.capacity() == PREPEND_SIZE + INITIAL_SIZE,
    {
        Self::with_initial_size(INITIAL_SIZE)
    }

    /// An empty buffer with `initial_size` bytes of room behind the reserve.
    pub fn with_initial_size(initial_size: usize) -> (buffer: Buffer)
        requires
            PREPEND_SIZE + initial_size <= isize::MAX,
        ensures
            buffer.wf(),
            buffer@ == Seq::<u8>::empty(),
            buffer.reader() == PREPEND_SIZE,
            buffer.writer() == PREPEND_SIZE,
            buffer.capacity() == PREPEND_SIZE + initial_size,
    {
        let mut buffer = store_with_capacity(PREPEND_SIZE + initial_size);
        store_resize(&mut buffer, PREPEND_SIZE + initial_size, 0);
        Buffer { buffer, reader_index: PREPEND_SIZE, writer_index: PREPEND_SIZE }
    }

    /// Number of readable bytes.
    pub fn readable_bytes(&self) -> (len: usize)
        requires
            self.wf(),
        ensures
            len == self@.len(),
            len == self.writer() - self.reader(),
    {
        self.writer_index - self.reader_index
    }

    /// Number of bytes that can be written without making room.
    pub fn writable_bytes(&self) -> (len: usize)
        requires
            self.wf(),
        ensures
            len == self.capacity() - self.writer(),
            len == self.tail().len(),
    {
        store_len(&self.buffer) - self.writer_index
    }

    /// Number of bytes in front of the readable region: the reader cursor.
    pub fn prepend_bytes(&self) -> (len: usize)
        requires
            self.wf(),
        ensures
            len == self.reader(),
            len >= PREPEND_SIZE,
    {
        self.reader_index
    }

    /// The reader cursor.
    pub fn reader_index(&self) -> (index: usize)
        ensures
            index == self.reader(),
    {
        self.reader_index
    }

    /// The writer cursor.
    pub fn writer_index(&self) -> (index: usize)
        ensures
            index == self.writer(),
    {
        self.writer_index
    }
}

/// In every well-formed buffer the reserve, the reader, the writer and the size are in
/// this order, and the readable bytes are those between reader and writer.
pub proof fn lemma_cursor_order(buffer: Buffer)
    requires
        buffer.wf(),
    ensures
        PREPEND_SIZE <= buffer.reader() <= buffer.writer() <= buffer.capacity(),
        buffer@.len() == buffer.writer() - buffer.reader(),
        buffer.tail().len() == buffer.capacity() - buffer.writer(),
{
}

impl Buffer {
    /// The first `len` readable bytes, if there are that many.
    pub fn peek(&self, len: usize) -> (bytes: Option<&[u8]>)
        requires
            self.wf(),
        ensures
            len <= self@.len() ==> bytes is Some && bytes.unwrap()@ == self@.subrange(
                0,
                len as int,
            ),
            len > self@.len() ==> bytes is None,
    {
        if self.readable_bytes() >= len {
            let all = store_slice(&self.buffer);
            let part = slice_subrange(all, self.reader_index, self.reader_index + len);
            assert(part@ =~= self@.subrange(0, len as int));
            Some(part)
        } else {
            None
        }
    }

    /// All readable bytes.
    pub fn as_slice(&self) -> (bytes: &[u8])
        requires
            self.wf(),
        ensures
            bytes@ == self@,
    {
        let all = store_slice(&self.buffer);
        slice_subrange(all, self.reader_index, self.writer_index)
    }

    /// Consumes the first `len` readable bytes. Asking for more than there are
    /// changes nothing.
    pub fn retrieve(&mut self, len: usize)
        requires
            old(self).wf(),
        ensures
            len <= old(self)@.len() ==> final(self).consumed_from(old(self), len as nat),
            len > old(self)@.len() ==> final(self).same_as(old(self)),
    {
        if len <= self.readable_bytes() {
            self.reader_index += len;
            if self.reader_index == self.writer_index {
                self.reader_index = PREPEND_SIZE;
                self.writer_index = PREPEND_SIZE;
            }
            assert(self@ =~= old(self)@.subrange(len as int, old(self)@.len() as int));
        }
    }

    /// Consumes every readable byte.
    pub fn retrieve_all(&mut self)
        requires
            old(self).wf(),
        ensures
            final(self).consumed_from(old(self), old(self)@.len()),
    {
        self.reader_index = PREPEND_SIZE;
        self.writer_index = PREPEND_SIZE;
        assert(self@ =~= old(self)@.subrange(old(self)@.len() as int, old(self)@.len() as int));
    }

    /// Consumes the first `len` readable bytes and gives them as text, bytes that are
    /// not UTF-8 replaced. With fewer than `len` readable bytes nothing changes.
    pub fn retrieve_as_string(&mut self, len: usize) -> (text: Option<String>)
        requires
            old(self).wf(),
        ensures
            len <= old(self)@.len() ==> text is Some && is_text_of(
                text.unwrap()@,
                old(self)@.subrange(0, len as int),
            ) && final(self).consumed_from(old(self), len as nat),
            len > old(self)@.len() ==> text is None && final(self).same_as(old(self)),
    {
        let result = match self.peek(len) {
            Some(data) => Some(string_from_utf8_lossy(data)),
            None => None,
        };
        if result.is_some() {
            self.retrieve(len);
        }
        result
    }

    /// Consumes every readable byte and gives them as text.
    pub fn retrieve_all_as_string(&mut self) -> (text: String)
        requires
            old(self).wf(),
        ensures
            is_text_of(text@, old(self)@),
            final(self).consumed_from(old(self), old(self)@.len()),
    {
        let len = self.readable_bytes();
        assert(self@.subrange(0, len as int) =~= self@);
        match self.retrieve_as_string(len) {
            Some(text) => text,
            None => String::new(),
        }
    }
}

impl Buffer {
    /// `self` is `before` with room for `len` more bytes behind the writer, made in
    /// the cheapest way that suffices: nothing where the tail is long enough, the
    /// readable bytes shifted down to the reserve where that frees enough, and
    /// otherwise the region grown by `len`.
    pub open spec fn made_room_from(&self, before: &Buffer, len: nat) -> bool {
        &&& self.wf()
        &&& self@ == before@
        &&& self.writer() == self.reader() + self@.len()
        &&& self.capacity() - self.writer() >= len
        &&& if before.capacity() - before.writer() >= len {
            self.capacity() == before.capacity() && self.reader() == before.reader()
        } else if (before.capacity() - before.writer()) + (before.reader() - PREPEND_SIZE)
            >= len {
            self.capacity() == before.capacity() && self.reader() == PREPEND_SIZE
        } else {
            self.capacity() == before.capacity() + len && self.reader() == before.reader()
        }
    }

    /// `self` is `before` with `data` behind its readable bytes, room made as
    /// `made_room_from` says.
    pub open spec fn appended_from(&self, before: &Buffer, data: Seq<u8>) -> bool {
        &&& self.wf()
        &&& self@ == before@ + data
        &&& self.writer() == self.reader() + self@.len()
        &&& if before.capacity() - before.writer() >= data.len() {
            self.capacity() == before.capacity() && self.reader() == before.reader()
        } else if (before.capacity() - before.writer()) + (before.reader() - PREPEND_SIZE)
            >= data.len() {
            self.capacity() == before.capacity() && self.reader() == PREPEND_SIZE
        } else {
            self.capacity() == before.capacity() + data.len() && self.reader()
                == before.reader()
        }
    }

    /// Makes room for `len` more bytes where the tail is too short for them: the
    /// readable bytes are shifted down to the reserve where that frees enough, and
    /// otherwise the region grows by `len`. The readable bytes stay, in order.
    pub fn make_space(&mut self, len: usize)
        requires
            old(self).wf(),
            old(self).can_take(len as nat),
            old(self).capacity() - old(self).writer() < len,
        ensures
            final(self).made_room_from(old(self), len as nat),
    {
        let readable = self.readable_bytes();
        if self.writable_bytes() + self.prepend_bytes() - PREPEND_SIZE >= len {
            let reader_start = self.reader_index;
            let ghost before = stored_bytes(self.buffer);
            let slice = store_slice_mut(&mut self.buffer);
            let mut i: usize = 0;
            while i < readable
                invariant
                    slice@.len() == before.len(),
                    before.len() <= isize::MAX,
                    i <= readable,
                    PREPEND_SIZE <= reader_start,
                    reader_start + readable <= before.len(),
                    forall|k: int|
                        PREPEND_SIZE <= k < PREPEND_SIZE + i ==> #[trigger] slice@[k] == before[k
                            - PREPEND_SIZE + reader_start],
                    forall|k: int| PREPEND_SIZE + i <= k < before.len() ==> slice@[k] == before[k],
                decreases readable - i,
            {
                let byte = slice[reader_start + i];
                slice[PREPEND_SIZE + i] = byte;
                i += 1;
            }
            self.reader_index = PREPEND_SIZE;
            self.writer_index = PREPEND_SIZE + readable;
            assert(self@ =~= old(self)@);
        } else {
            let new_size = store_len(&self.buffer) + len;
            store_resize(&mut self.buffer, new_size, 0);
            assert(self@ =~= old(self)@);
        }
    }

    /// Sees to it that `len` more bytes can be written behind the readable ones,
    /// which stay as they are.
    pub fn ensure_writable_bytes(&mut self, len: usize)
        requires
            old(self).wf(),
            old(self).can_take(len as nat),
        ensures
            final(self).made_room_from(old(self), len as nat),
    {
        if self.writable_bytes() < len {
            self.make_space(len);
        }
    }

    /// Puts `data` behind the readable bytes, making room first where the tail is
    /// too short.
    pub fn append(&mut self, data: &[u8])
        requires
            old(self).wf(),
            old(self).can_take(data@.len()),
        ensures
            final(self).appended_from(old(self), data@),
    {
        self.ensure_writable_bytes(data.len());
        let start = self.writer_index;
        let ghost before = stored_bytes(self.buffer);
        let ghost readable = self@;
        let slice = store_slice_mut(&mut self.buffer);
        let mut i: usize = 0;
        while i < data.len()
            invariant
                slice@.len() == before.len(),
                before.len() <= isize::MAX,
                i <= data.len(),
                start + data.len() <= before.len(),
                forall|k: int| start <= k < start + i ==> #[trigger] slice@[k] == data@[k - start],
                forall|k: int| 0 <= k < start ==> slice@[k] == before[k],
            decreases data.len() - i,
        {
            slice[start + i] = data[i];
            i += 1;
        }
        self.writer_index += data.len();
        assert(self@ =~= readable + data@);
    }

    /// Puts the UTF-8 bytes of `s` behind the readable bytes.
    pub fn append_string(&mut self, s: &str)
        requires
            old(self).wf(),
            old(self).can_take(s.spec_bytes().len()),
        ensures
            final(self).appended_from(old(self), s.spec_bytes()),
    {
        self.append(s.as_bytes());
    }

    /// Puts `buf` behind the readable bytes and says how many bytes were taken:
    /// all of them.
    pub fn write(&mut self, buf: &[u8]) -> (written: usize)
        requires
            old(self).wf(),
            old(self).can_take(buf@.len()),
        ensures
            written == buf@.len(),
            final(self).appended_from(old(self), buf@),
    {
        self.append(buf);
        buf.len()
    }

    /// Whether `len` more bytes can be appended: free space suffices, or the region
    /// may still grow by `len`.
    pub fn has_room_for(&self, len: usize) -> (room: bool)
        requires
            self.wf(),
        ensures
            room == self.can_take(len as nat),
    {
        let free = self.writable_bytes() + self.prepend_bytes() - PREPEND_SIZE;
        let size = store_len(&self.buffer);
        free >= len || len <= (isize::MAX as usize) - size
    }
}

/// Whether `pattern` stands in `data` at offset `at`.
fn matches_at(data: &[u8], pattern: &[u8], at: usize) -> (found: bool)
    requires
        at + pattern@.len() <= data@.len(),
    ensures
        found == occurs_at(data@, pattern@, at as int),
{
    let size = data.len();
    let mut k: usize = 0;
    while k < pattern.len()
        invariant
            size == data@.len(),
            k <= pattern@.len(),
            at + pattern@.len() <= data@.len(),
            forall|j: int| 0 <= j < k ==> data@[at + j] == #[trigger] pattern@[j],
        decreases pattern.len() - k,
    {
        if data[at + k] != pattern[k] {
            assert(data@.subrange(at as int, at + pattern@.len())[k as int] == data@[at + k]);
            return false;
        }
        k += 1;
    }
    assert(data@.subrange(at as int, at + pattern@.len()) =~= pattern@);
    true
}

impl Buffer {
    /// The part of the region behind the writer cursor, to be written in place.
    /// Nothing else of the buffer changes; `has_written` then makes what was
    /// written readable.
    pub fn writable_slice(&mut self) -> (tail: &mut [u8])
        requires
            old(self).wf(),
        ensures
            tail@ == old(self).tail(),
            final(self).tail() == final(tail)@,
            final(self).same_as(old(self)),
    {
        let start = self.writer_index;
        let tail = store_tail_mut(&mut self.buffer, start);
        proof {
            let before = stored_bytes(old(self).buffer);
            let after = before.subrange(0, start as int) + final(tail)@;
            assert(after.subrange(self.reader_index as int, self.writer_index as int)
                =~= before.subrange(self.reader_index as int, self.writer_index as int));
            assert(after.subrange(start as int, after.len() as int) =~= final(tail)@);
        }
        tail
    }

    /// Moves the writer cursor over `len` bytes that were written in place.
    pub fn has_written(&mut self, len: usize)
        requires
            old(self).wf(),
            len <= old(self).capacity() - old(self).writer(),
        ensures
            final(self).wf(),
            final(self).capacity() == old(self).capacity(),
            final(self).reader() == old(self).reader(),
            final(self).writer() == old(self).writer() + len,
            final(self)@ == old(self)@ + old(self).tail().subrange(0, len as int),
    {
        self.writer_index += len;
        assert(self@ =~= old(self)@ + old(self).tail().subrange(0, len as int));
    }

    /// First step of a socket read: the socket put `bytes_read` bytes into the
    /// writable tail. They become readable. The result says whether the tail is
    /// now full, in which case one more read, into a scratch region of
    /// `EXTRA_READ_SIZE` bytes, is due before the read is over.
    pub fn read_tcp_stream(&mut self, bytes_read: usize) -> (extra_due: bool)
        requires
            old(self).wf(),
            bytes_read <= old(self).capacity() - old(self).writer(),
        ensures
            final(self).wf(),
            final(self).capacity() == old(self).capacity(),
            final(self).reader() == old(self).reader(),
            final(self).writer() == old(self).writer() + bytes_read,
            final(self)@ == old(self)@ + old(self).tail().subrange(0, bytes_read as int),
            extra_due == (final(self).writer() == final(self).capacity()),
    {
        if bytes_read > 0 {
            self.has_written(bytes_read);
        } else {
            assert(self@ + self.tail().subrange(0, 0) =~= self@);
        }
        self.writable_bytes() == 0
    }

    /// What a socket read reports whose first step took `bytes_read` bytes and
    /// filled the tail, and whose extra read ended as `outcome`: the bytes of both
    /// reads together; the bytes of the first read alone where the extra read
    /// would block, so that none that was made readable goes unreported; would-block
    /// where the first read took nothing either, since zero bytes would read as
    /// a peer that has closed; and the error where the extra read failed.
    pub open spec fn read_result(bytes_read: usize, outcome: IoOutcome) -> IoOutcome {
        match outcome {
            IoOutcome::Done(n) => IoOutcome::Done((bytes_read + n) as usize),
            IoOutcome::WouldBlock => if bytes_read > 0 {
                IoOutcome::Done(bytes_read)
            } else {
                IoOutcome::WouldBlock
            },
            IoOutcome::Failed => IoOutcome::Failed,
        }
    }

    /// Last step of a socket read whose first step took `bytes_read` bytes and
    /// filled the tail: the extra read into the scratch region `extra` ended as
    /// `outcome`. The bytes that it put there are appended; without any the
    /// buffer stays as it is. The result is what the whole read reports.
    pub fn read_tcp_stream_finish(
        &mut self,
        bytes_read: usize,
        extra: &[u8],
        outcome: IoOutcome,
    ) -> (result: IoOutcome)
        requires
            old(self).wf(),
            bytes_read <= old(self)@.len(),
            extra@.len() <= EXTRA_READ_SIZE,
            outcome matches IoOutcome::Done(n) ==> n <= extra@.len() && old(self).can_take(
                n as nat,
            ),
        ensures
            result == Self::read_result(bytes_read, outcome),
            match outcome {
                IoOutcome::Done(n) => final(self).appended_from(
                    old(self),
                    extra@.subrange(0, n as int),
                ),
                _ => final(self).same_as(old(self)),
            },
    {
        match outcome {
            IoOutcome::Done(extra_read) => {
                if extra_read > 0 {
                    self.append(slice_subrange(extra, 0, extra_read));
                } else {
                    assert(self@ + extra@.subrange(0, 0) =~= self@);
                }
                IoOutcome::Done(bytes_read + extra_read)
            },
            IoOutcome::WouldBlock => {
                if bytes_read > 0 {
                    IoOutcome::Done(bytes_read)
                } else {
                    IoOutcome::WouldBlock
                }
            },
            IoOutcome::Failed => IoOutcome::Failed,
        }
    }

    /// Offset among the readable bytes of the leftmost occurrence of `pattern`.
    /// An empty pattern is not found.
    pub fn find_bytes(&self, pattern: &[u8]) -> (at: Option<usize>)
        requires
            self.wf(),
        ensures
            match at {
                Some(i) => first_match(self@, pattern@) == Some(i as int),
                None => first_match(self@, pattern@) is None,
            },
    {
        if pattern.len() == 0 || self.readable_bytes() < pattern.len() {
            return None;
        }
        let data = self.as_slice();
        let last = data.len() - pattern.len();
        let mut i: usize = 0;
        while i <= last
            invariant
                data@ == self@,
                pattern@.len() > 0,
                last == data@.len() - pattern@.len(),
                i <= last + 1,
                last < usize::MAX,
                forall|j: int| 0 <= j < i ==> !occurs_at(data@, pattern@, j),
            decreases last + 1 - i,
        {
            if matches_at(data, pattern, i) {
                proof {
                    lemma_first_match_is(self@, pattern@, i as int);
                }
                return Some(i);
            }
            i += 1;
        }
        None
    }

    /// Offset of the first carriage return followed by a line feed.
    pub fn find_crlf(&self) -> (at: Option<usize>)
        requires
            self.wf(),
        ensures
            match at {
                Some(i) => first_match(self@, seq![13u8, 10u8]) == Some(i as int),
                None => first_match(self@, seq![13u8, 10u8]) is None,
            },
    {
        let pattern: [u8; 2] = [13u8, 10u8];
        assert(pattern@ =~= seq![13u8, 10u8]);
        self.find_bytes(pattern.as_slice())
    }

    /// Offset of the first line feed.
    pub fn find_lf(&self) -> (at: Option<usize>)
        requires
            self.wf(),
        ensures
            match at {
                Some(i) => first_match(self@, seq![10u8]) == Some(i as int),
                None => first_match(self@, seq![10u8]) is None,
            },
    {
        let pattern: [u8; 1] = [10u8];
        assert(pattern@ =~= seq![10u8]);
        self.find_bytes(pattern.as_slice())
    }

    /// Consumes the readable bytes up to and including the first occurrence of
    /// `delimiter` and gives those in front of it. Without an occurrence nothing
    /// changes.
    pub fn read_until(&mut self, delimiter: &[u8]) -> (bytes: Option<Vec<u8>>)
        requires
            old(self).wf(),
        ensures
            match first_match(old(self)@, delimiter@) {
                Some(pos) => bytes is Some && bytes.unwrap()@ == old(self)@.subrange(0, pos)
                    && final(self).consumed_from(old(self), (pos + delimiter@.len()) as nat),
                None => bytes is None && final(self).same_as(old(self)),
            },
    {
        match self.find_bytes(delimiter) {
            Some(pos) => {
                let front = match self.peek(pos) {
                    Some(front) => slice_to_vec(front),
                    None => Vec::new(),
                };
                self.retrieve(pos + delimiter.len());
                Some(front)
            },
            None => None,
        }
    }

    /// The end of the line that a line feed at offset `pos` closes: a carriage
    /// return just in front of the line feed is not part of the line.
    pub open spec fn line_end(bytes: Seq<u8>, pos: int) -> int {
        if pos > 0 && bytes[pos - 1] == 13u8 {
            pos - 1
        } else {
            pos
        }
    }

    /// Consumes the first line, its line feed included, and gives it as text without
    /// the line feed and without a carriage return in front of it. Without a line
    /// feed nothing changes.
    pub fn read_line(&mut self) -> (line: Option<String>)
        requires
            old(self).wf(),
        ensures
            match first_match(old(self)@, seq![10u8]) {
                Some(pos) => line is Some && is_text_of(
                    line.unwrap()@,
                    old(self)@.subrange(0, Self::line_end(old(self)@, pos)),
                ) && final(self).consumed_from(old(self), (pos + 1) as nat),
                None => line is None && final(self).same_as(old(self)),
            },
    {
        match self.find_lf() {
            Some(pos) => {
                let data = self.as_slice();
                let end = if pos > 0 && data[pos - 1] == 13u8 {
                    pos - 1
                } else {
                    pos
                };
                let line = string_from_utf8_lossy(slice_subrange(data, 0, end));
                self.retrieve(pos + 1);
                Some(line)
            },
            None => None,
        }
    }

    /// Nothing is held back by `write`, so there is nothing to flush.
    pub fn flush(&mut self)
        requires
            old(self).wf(),
        ensures
            final(self).same_as(old(self)),
    {
    }
}

impl Default for Buffer {
    fn default() -> (buffer: Buffer)
        ensures
            buffer.wf(),
            buffer@ == Seq::<u8>::empty(),
            buffer.reader() == PREPEND_SIZE,
            buffer.writer() == PREPEND_SIZE,
            buffer.capacity() == PREPEND_SIZE + INITIAL_SIZE,
    {
        Self::new()
    }
}

/// Appending `data` to an empty buffer, peeking at `len` bytes and consuming them
/// gives the first `len` bytes of `data` and leaves the rest readable; consuming the
/// rest as well leaves the buffer empty with both cursors at the reserve.
pub proof fn lemma_append_peek_retrieve(
    start: Buffer,
    filled: Buffer,
    partly: Buffer,
    drained: Buffer,
    data: Seq<u8>,
    len: nat,
)
    requires
        start.wf(),
        start@.len() == 0,
        filled.appended_from(&start, data),
        len <= data.len(),
        partly.consumed_from(&filled, len),
        drained.consumed_from(&partly, (data.len() - len) as nat),
    ensures
        filled@.subrange(0, len as int) == data.subrange(0, len as int),
        partly@ == data.subrange(len as int, data.len() as int),
        drained@ == Seq::<u8>::empty(),
        drained.reader() == PREPEND_SIZE,
        drained.writer() == PREPEND_SIZE,
{
    assert(filled@ =~= data);
    assert(partly@.len() == data.len() - len);
    assert(drained@ =~= Seq::<u8>::empty());
}

/// Appending keeps what was readable, in place in front of the new bytes,
/// whether the buffer had room, was compacted or had to grow.
pub proof fn lemma_append_keeps_contents(before: Buffer, after: Buffer, data: Seq<u8>)
    requires
        before.wf(),
        after.appended_from(&before, data),
    ensures
        after@.len() == before@.len() + data.len(),
        after@.subrange(0, before@.len() as int) == before@,
        after@.subrange(before@.len() as int, after@.len() as int) == data,
        after.capacity() >= before.capacity(),
{
    assert(after@.subrange(0, before@.len() as int) =~= before@);
    assert(after@.subrange(before@.len() as int, after@.len() as int) =~= data);
}

/// Text that is appended to an empty buffer and taken out whole comes back as it
/// went in.
pub proof fn lemma_text_round_trip(start: Buffer, filled: Buffer, text: Seq<char>, taken: Seq<char>)
    requires
        start.wf(),
        start@.len() == 0,
        filled.appended_from(&start, vstd::utf8::encode_utf8(text)),
        is_text_of(taken, filled@),
    ensures
        taken == text,
{
    vstd::utf8::encode_utf8_valid_utf8(text);
    vstd::utf8::encode_utf8_decode_utf8(text);
    assert(filled@ =~= vstd::utf8::encode_utf8(text));
}

} // verus!
