use std::sync::Arc;

use vstd::prelude::*;
use vstd::string::*;

use crate::buffer::CBuf;
use crate::error::NulError;
use crate::scan::find_byte;

verus! {

#[verifier::external_type_specification]
#[verifier::external_body]
#[verifier::reject_recursive_types(T)]
pub struct ExPool<T>(objpool::Pool<T>);

#[verifier::external_type_specification]
#[verifier::external_body]
#[verifier::reject_recursive_types(T)]
pub struct ExItem<T>(objpool::Item<T>);

/// The content, terminator excluded, of the buffer an exclusive pool handle
/// holds.
pub uninterp spec fn item_view(it: objpool::Item<CBuf>) -> Seq<u8>;

/// Relies on objpool::Pool::new: an unbounded pool that lazily creates
/// objects with the given factory and recycles every object handed back.
/// The factory here produces an empty buffer pre-reserved to
/// `default_string_capacity` bytes.
#[verifier::external_body]
fn pool_new(default_string_capacity: usize) -> Arc<objpool::Pool<CBuf>> {
    objpool::Pool::new(move || CBuf::with_reserve(default_string_capacity))
}

/// Relies on objpool::Pool::with_capacity: as objpool::Pool::new, but at most
/// `pool_capacity` objects exist at a time; acquiring beyond that blocks.
#[verifier::external_body]
fn pool_with_capacity(pool_capacity: usize, default_string_capacity: usize) -> Arc<
    objpool::Pool<CBuf>,
> {
    objpool::Pool::with_capacity(pool_capacity, move || CBuf::with_reserve(
        default_string_capacity,
    ))
}

/// Relies on objpool::Pool::get: blocks until a pooled object is free or can
/// be lazily created, then hands back an exclusive handle on it. Nothing is
/// assumed of the buffer's content; the callers overwrite it before use.
#[verifier::external_body]
fn pool_get(pool: &Arc<objpool::Pool<CBuf>>) -> objpool::Item<CBuf> {
    pool.get()
}

/// Relies on objpool::Item's Deref: a shared borrow of the buffer the handle
/// holds exclusively.
#[verifier::external_body]
fn item_buf(it: &objpool::Item<CBuf>) -> (r: &CBuf)
    ensures
        r@ == item_view(*it),
{
    &**it
}

/// Relies on take_mut::take and objpool::Item's DerefMut: replaces the held
/// buffer, in place, with the library's own refill of it. take_mut::take
/// writes the closure's result back before returning, and aborts the process
/// if the closure panics, so no partially written buffer is ever observable.
#[verifier::external_body]
fn item_replace(it: &mut objpool::Item<CBuf>, src: &[u8], end: usize)
    requires
        end <= src@.len(),
        forall|i: int| 0 <= i < end ==> src@[i] != 0,
    ensures
        item_view(*final(it)) == src@.subrange(0, end as int),
{
    take_mut::take(&mut **it, |buf: CBuf| buf.refilled(src, end));
}

/// A scoped, exclusive handle on one pooled buffer. Dropping the handle
/// returns the buffer to the pool, unconditionally, on every exit path.
#[derive(Debug)]
pub struct CStrHandle {
    item: objpool::Item<CBuf>,
}

impl View for CStrHandle {
    type V = Seq<u8>;

    /// The buffer's text content, terminator excluded.
    closed spec fn view(&self) -> Seq<u8> {
        item_view(self.item)
    }
}

impl CStrHandle {
    /// The full null-terminated representation — the content, then one null
    /// byte, and no null anywhere else — for foreign code to read.
    pub fn as_bytes_with_nul(&self) -> (r: &Vec<u8>)
        ensures
            r@ == self@ + seq![0u8],
            forall|i: int| 0 <= i < r@.len() - 1 ==> r@[i] != 0,
    {
        let buf = item_buf(&self.item);
        buf.as_bytes_with_nul()
    }

    /// A copy of the text content, terminator excluded.
    pub fn to_bytes(&self) -> (r: Vec<u8>)
        ensures
            r@ == self@,
    {
        let all = self.as_bytes_with_nul();
        let n = all.len() - 1;
        let content = vstd::slice::slice_subrange(all.as_slice(), 0, n);
        let v = vstd::slice::slice_to_vec(content);
        proof {
            assert(v@ =~= self@);
        }
        v
    }
}

/// A thread-safe pool of null-terminated byte buffers, reusable across calls
/// for ease of foreign-function interactions. Cloning the pool shares the
/// same underlying buffers.
#[derive(Clone)]
pub struct CStringPool {
    pool: Arc<objpool::Pool<CBuf>>,
    /// The configured bound on simultaneously outstanding buffers, if any.
    /// Recorded for specification purposes; the bound itself is enforced by
    /// the underlying pool, which blocks acquisition once it is reached.
    max_outstanding: Ghost<Option<usize>>,
}

impl CStringPool {
    /// The bound this pool was configured with: `None` for an unbounded pool.
    pub closed spec fn bound(self) -> Option<usize> {
        self.max_outstanding@
    }

    /// Create an unbounded pool. Each lazily constructed buffer starts empty,
    /// pre-reserved to `default_string_capacity` bytes; no buffer is
    /// allocated eagerly.
    pub fn new(default_string_capacity: usize) -> (r: CStringPool)
        ensures
            r.bound() == None::<usize>,
    {
        CStringPool { pool: pool_new(default_string_capacity), max_outstanding: Ghost(None) }
    }

    /// Create a pool bounded to at most `pool_capacity` simultaneously
    /// outstanding buffers. Acquisition beyond that bound blocks the calling
    /// thread, without timeout, until another holder returns a buffer.
    pub fn with_capacity(pool_capacity: usize, default_string_capacity: usize) -> (r: CStringPool)
        ensures
            r.bound() == Some(pool_capacity),
    {
        CStringPool {
            pool: pool_with_capacity(pool_capacity, default_string_capacity),
            max_outstanding: Ghost(Some(pool_capacity)),
        }
    }

    /// Repopulate a pooled buffer from text. The text's bytes are scanned
    /// first: if a null byte occurs, the first one's offset comes back as a
    /// `NulError` before anything touches the pool. Otherwise a recycled
    /// buffer is acquired (blocking at a bounded pool's capacity), its old
    /// content is replaced by the text's bytes, and a scoped handle on it is
    /// returned.
    pub fn get_str(&self, s: &str) -> (r: Result<CStrHandle, NulError>)
        ensures
            match r {
                Ok(h) => {
                    &&& forall|i: int| 0 <= i < s.spec_bytes().len() ==> s.spec_bytes()[i] != 0
                    &&& h@ == s.spec_bytes()
                },
                Err(e) => {
                    &&& e.position < s.spec_bytes().len()
                    &&& s.spec_bytes()[e.position as int] == 0
                    &&& forall|j: int| 0 <= j < e.position ==> s.spec_bytes()[j] != 0
                },
            },
    {
        let bytes: &[u8] = s.as_bytes();
        match find_byte(0, bytes) {
            Some(i) => Err(NulError { position: i }),
            None => {
                let mut item = pool_get(&self.pool);
                let n = bytes.len();
                item_replace(&mut item, bytes, n);
                let h = CStrHandle { item };
                proof {
                    assert(h@ =~= s.spec_bytes());
                }
                Ok(h)
            },
        }
    }

    /// Repopulate a pooled buffer from an already null-terminated byte
    /// string: `source` must end in a null byte and hold no other — the
    /// guarantee a C string carries by construction. No validation is
    /// performed and no failure is possible; the buffer's new content is
    /// `source` without its terminator.
    pub fn get_c_str(&self, source: &[u8]) -> (r: CStrHandle)
        requires
            source@.len() >= 1,
            source@[source@.len() - 1] == 0,
            forall|i: int| 0 <= i < source@.len() - 1 ==> source@[i] != 0,
        ensures
            r@ == source@.subrange(0, source@.len() - 1),
    {
        let mut item = pool_get(&self.pool);
        let end = source.len() - 1;
        item_replace(&mut item, source, end);
        CStrHandle { item }
    }
}

} // verus!
