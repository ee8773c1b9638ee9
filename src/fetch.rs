//! The response side of a fetch: a fixed-capacity body buffer that is reused
//! across fetches, and turning its bytes into a page layout.

use crate::pagination::{wrapped_text_height, PageLayout, MAX_TEXT_CHARS, PARAGRAPH_SPACING};
use vstd::prelude::*;

verus! {

/// Recommended body capacity, matching the transport's buffer size.
pub const RESPONSE_CAPACITY: usize = 8192;

/// Why a fetch produced no text.
#[derive(Clone, Copy, Debug, PartialEq, Eq)]
pub enum FetchError {
    /// The body is longer than the buffer's capacity.
    Overflow,
    /// Connecting, the secure channel, or reading failed.
    Transport,
    /// The body is not valid UTF-8 text.
    Decode,
}

/// The text that `bytes` encode as UTF-8, or `None` when they are not valid UTF-8.
pub uninterp spec fn utf8_decoded(bytes: Seq<u8>) -> Option<Seq<char>>;

/// Relies on `core::str::from_utf8`: it succeeds exactly on valid UTF-8 and then
/// views the same bytes as text, so the text has no more characters than bytes.
#[verifier::external_body]
fn decode_utf8(bytes: &[u8]) -> (r: Option<&str>)
    ensures
        match r {
            Some(s) => utf8_decoded(bytes@) == Some(s@) && s@.len() <= bytes@.len(),
            None => utf8_decoded(bytes@) is None,
        },
{
    core::str::from_utf8(bytes).ok()
}

/// What the buffer holds after appending `chunk` to `content`, or `None` when the
/// result would not fit in `capacity` bytes.
pub open spec fn appended(content: Seq<u8>, capacity: nat, chunk: Seq<u8>) -> Option<Seq<u8>> {
    if content.len() + chunk.len() <= capacity {
        Some(content + chunk)
    } else {
        None
    }
}

/// What the buffer holds after appending `chunks` one by one to `content`,
/// stopping at the first overflow.
pub open spec fn filled_with(content: Seq<u8>, capacity: nat, chunks: Seq<Seq<u8>>) -> Option<Seq<u8>>
    decreases chunks.len(),
{
    if chunks.len() == 0 {
        Some(content)
    } else {
        match appended(content, capacity, chunks[0]) {
            Some(next) => filled_with(next, capacity, chunks.drop_first()),
            None => None,
        }
    }
}

/// All of `chunks`, one after another.
pub open spec fn concat_chunks(chunks: Seq<Seq<u8>>) -> Seq<u8>
    decreases chunks.len(),
{
    if chunks.len() == 0 {
        Seq::empty()
    } else {
        chunks[0] + concat_chunks(chunks.drop_first())
    }
}

proof fn lemma_filled_with(content: Seq<u8>, capacity: nat, chunks: Seq<Seq<u8>>)
    requires
        content.len() <= capacity,
    ensures
        filled_with(content, capacity, chunks) == if content.len() + concat_chunks(chunks).len()
            <= capacity {
            Some(content + concat_chunks(chunks))
        } else {
            None::<Seq<u8>>
        },
    decreases chunks.len(),
{
    if chunks.len() > 0 {
        let rest = chunks.drop_first();
        assert(concat_chunks(chunks) == chunks[0] + concat_chunks(rest));
        assert(concat_chunks(chunks).len() == chunks[0].len() + concat_chunks(rest).len());
        if content.len() + chunks[0].len() <= capacity {
            lemma_filled_with(content + chunks[0], capacity, rest);
            assert(content + chunks[0] + concat_chunks(rest) =~= content + concat_chunks(chunks));
        }
    } else {
        assert(content + concat_chunks(chunks) =~= content);
    }
}

/// A body delivered in `chunks` into a buffer of `capacity` bytes: it fails
/// with an overflow exactly when the whole body is longer than the capacity,
/// and otherwise the buffer holds exactly the body. Since an overflow leaves the
/// buffer empty with its capacity, the next fetch behaves as on a fresh buffer.
pub proof fn lemma_bounded_fetch(capacity: nat, chunks: Seq<Seq<u8>>)
    ensures
        filled_with(Seq::empty(), capacity, chunks) is None <==> concat_chunks(chunks).len() > capacity,
        concat_chunks(chunks).len() <= capacity ==> filled_with(Seq::empty(), capacity, chunks)
            == Some(concat_chunks(chunks)),
{
    lemma_filled_with(Seq::empty(), capacity, chunks);
    assert(Seq::<u8>::empty() + concat_chunks(chunks) =~= concat_chunks(chunks));
}

/// A response body buffer of fixed capacity; it never grows.
pub struct ResponseBuffer {
    storage: Vec<u8>,
    filled: usize,
}

impl ResponseBuffer {
    /// The bytes of the body written so far.
    pub closed spec fn content(&self) -> Seq<u8> {
        self.storage@.subrange(0, self.filled as int)
    }

    /// How many bytes the buffer can hold.
    pub closed spec fn spec_capacity(&self) -> nat {
        self.storage@.len()
    }

    pub closed spec fn wf(&self) -> bool {
        &&& self.filled <= self.storage@.len()
        &&& self.storage@.len() <= MAX_TEXT_CHARS
    }

    /// An empty buffer of `capacity` bytes.
    pub fn new(capacity: usize) -> (r: ResponseBuffer)
        requires
            capacity <= MAX_TEXT_CHARS,
        ensures
            r.wf(),
            r.content() == Seq::<u8>::empty(),
            r.spec_capacity() == capacity,
    {
        let mut storage: Vec<u8> = Vec::with_capacity(capacity);
        let mut i: usize = 0;
        while i < capacity
            invariant
                i <= capacity,
                storage@.len() == i,
            decreases capacity - i,
        {
            storage.push(0);
            i = i + 1;
        }
        let r = ResponseBuffer { storage, filled: 0 };
        assert(r.content() =~= Seq::<u8>::empty());
        r
    }

    pub fn capacity(&self) -> (r: usize)
        ensures
            r == self.spec_capacity(),
    {
        self.storage.len()
    }

    pub fn len(&self) -> (r: usize)
        requires
            self.wf(),
        ensures
            r == self.content().len(),
    {
        self.filled
    }

    /// Forgets the body, keeping the storage for the next fetch.
    pub fn clear(&mut self)
        requires
            old(self).wf(),
        ensures
            final(self).wf(),
            final(self).content() == Seq::<u8>::empty(),
            final(self).spec_capacity() == old(self).spec_capacity(),
    {
        self.filled = 0;
        assert(self.content() =~= Seq::<u8>::empty());
    }

    /// Appends the next piece of the body. When it does not fit, the fetch fails
    /// with `Overflow` and the buffer is left empty and ready for the next fetch.
    pub fn append(&mut self, chunk: &[u8]) -> (r: Result<(), FetchError>)
        requires
            old(self).wf(),
        ensures
            final(self).wf(),
            final(self).spec_capacity() == old(self).spec_capacity(),
            match appended(old(self).content(), old(self).spec_capacity(), chunk@) {
                Some(c) => r is Ok && final(self).content() == c,
                None => r == Err::<(), FetchError>(FetchError::Overflow) && final(self).content()
                    == Seq::<u8>::empty(),
            },
    {
        let n = chunk.len();
        if n > self.storage.len() - self.filled {
            self.clear();
            return Err(FetchError::Overflow);
        }
        let start = self.filled;
        let mut i: usize = 0;
        while i < n
            invariant
                self.filled == start,
                start + n <= self.storage@.len(),
                self.storage@.len() == old(self).storage@.len(),
                self.storage@.len() <= MAX_TEXT_CHARS,
                n == chunk@.len(),
                i <= n,
                forall|j: int| 0 <= j < start ==> self.storage@[j] == old(self).storage@[j],
                forall|j: int| 0 <= j < i ==> self.storage@[start + j] == chunk@[j],
            decreases n - i,
        {
            self.storage.set(start + i, chunk[i]);
            i = i + 1;
        }
        self.filled = start + n;
        assert(self.content() =~= old(self).content() + chunk@);
        Ok(())
    }

    /// The body written so far.
    pub fn body(&self) -> (r: &[u8])
        requires
            self.wf(),
        ensures
            r@ == self.content(),
    {
        vstd::slice::slice_subrange(self.storage.as_slice(), 0, self.filled)
    }

    /// The body as text, or `Decode` when it is not valid UTF-8.
    pub fn text(&self) -> (r: Result<&str, FetchError>)
        requires
            self.wf(),
        ensures
            match utf8_decoded(self.content()) {
                Some(t) => r is Ok && r->Ok_0@ == t && t.len() <= self.content().len(),
                None => r == Err::<&str, FetchError>(FetchError::Decode),
            },
    {
        match decode_utf8(self.body()) {
            Some(s) => Ok(s),
            None => Err(FetchError::Decode),
        }
    }
}

/// Lays out the fetched body on a screen `width` by `screen_height` pixels, or
/// fails with `Decode` when the body is not text, so nothing is rendered.
pub fn layout_for_response(buffer: &ResponseBuffer, width: u32, screen_height: u32) -> (r: Result<
    PageLayout,
    FetchError,
>)
    requires
        buffer.wf(),
    ensures
        r == match utf8_decoded(buffer.content()) {
            Some(t) => Ok(
                PageLayout::initial(wrapped_text_height(t, width, PARAGRAPH_SPACING), screen_height),
            ),
            None => Err::<PageLayout, FetchError>(FetchError::Decode),
        },
{
    match buffer.text() {
        Ok(text) => Ok(PageLayout::for_text(text, width, screen_height)),
        Err(e) => Err(e),
    }
}

} // verus!
