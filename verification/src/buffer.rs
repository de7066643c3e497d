use vstd::prelude::*;

verus! {

/// An owned, growable byte buffer that always ends in a single null byte and
/// holds no other: the in-memory shape of a C string. Values of this type can
/// only come out of the constructors below, each of which establishes that
/// shape, so a buffer recycled through the pool never needs re-validation.
#[derive(Debug)]
pub(crate) struct CBuf {
    bytes: Vec<u8>,
}

impl View for CBuf {
    type V = Seq<u8>;

    /// The text content: every byte before the trailing terminator.
    closed spec fn view(&self) -> Seq<u8> {
        self.bytes@.drop_last()
    }
}

impl CBuf {
    /// One null byte stands at the end and none anywhere else.
    #[verifier::type_invariant]
    spec fn wf(self) -> bool {
        &&& self.bytes@.len() >= 1
        &&& self.bytes@[self.bytes@.len() - 1] == 0
        &&& forall|i: int| 0 <= i < self.bytes@.len() - 1 ==> self.bytes@[i] != 0
    }

    /// An empty buffer whose backing storage is pre-reserved to `capacity`
    /// bytes — a performance hint, not a limit.
    pub(crate) fn with_reserve(capacity: usize) -> (r: CBuf)
        ensures
            r@ == Seq::<u8>::empty(),
    {
        let mut bytes: Vec<u8> = Vec::with_capacity(capacity);
        bytes.push(0);
        let r = CBuf { bytes };
        proof {
            assert(r@ =~= Seq::<u8>::empty());
        }
        r
    }

    /// Replaces the whole content with the first `end` bytes of `src` and
    /// re-appends the terminator. The previous content is discarded; its
    /// allocation is reused.
    pub(crate) fn refilled(self, src: &[u8], end: usize) -> (r: CBuf)
        requires
            end <= src@.len(),
            forall|i: int| 0 <= i < end ==> src@[i] != 0,
        ensures
            r@ == src@.subrange(0, end as int),
    {
        let CBuf { bytes: mut bytes } = self;
        bytes.clear();
        let mut i: usize = 0;
        while i < end
            invariant
                i <= end,
                end <= src@.len(),
                bytes@ =~= src@.subrange(0, i as int),
            decreases end - i,
        {
            bytes.push(src[i]);
            i += 1;
        }
        bytes.push(0);
        let r = CBuf { bytes };
        proof {
            assert(r@ =~= src@.subrange(0, end as int));
        }
        r
    }

    /// The full null-terminated representation — the content plus the
    /// trailing null, with no null anywhere else — for foreign code to read.
    pub(crate) fn as_bytes_with_nul(&self) -> (r: &Vec<u8>)
        ensures
            r@ == self@ + seq![0u8],
            forall|i: int| 0 <= i < r@.len() - 1 ==> r@[i] != 0,
    {
        proof {
            use_type_invariant(self);
            assert(self.bytes@ =~= self@ + seq![0u8]);
        }
        &self.bytes
    }
}

} // verus!
