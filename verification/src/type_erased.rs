//! A type-erased, insertion-ordered store of heterogeneous values.
//!
//! Values are kept as raw byte spans inside one contiguous arena, with a
//! parallel metadata table: one record per stored value, carrying its byte
//! offset, its size and a caller-supplied metadata payload. The buffer never
//! knows a value's real type; the caller's metadata (typically a type tag or
//! an operation describing how to reconstruct the value) is what makes a
//! record self-describing on the way out.
//!
//! The view (`@`) of a buffer is the sequence of its live records, in
//! insertion order, each as the pair (stored bytes, metadata).

use vstd::prelude::*;

verus! {

/// Bookkeeping for one stored record: where its bytes start in the arena,
/// how many bytes it has, and the caller-supplied metadata.
struct ErasedMeta<UserData> {
    offset: usize,
    size: usize,
    user_data: UserData,
}

/// The record spans chain through the arena: each record starts where the
/// previous one ends, every span stays inside the arena, and the last span
/// ends exactly at the arena's end.
spec fn spans_chained<UserData>(metas: Seq<ErasedMeta<UserData>>, arena_len: nat) -> bool {
    &&& forall|i: int|
        0 <= i < metas.len() ==> (#[trigger] metas[i]).offset + metas[i].size <= arena_len
    &&& forall|i: int|
        1 <= i < metas.len() ==> (#[trigger] metas[i]).offset == metas[i - 1].offset + metas[i
            - 1].size
    &&& metas.len() > 0 ==> metas[metas.len() - 1].offset + metas[metas.len() - 1].size
        == arena_len
}

/// A growable byte arena plus a parallel metadata table. Stores values of
/// unrelated types by bit-copy, associates each with caller-supplied
/// metadata, and hands them back in insertion order.
pub struct TypeErasedVec<UserData> {
    bytes: Vec<u8>,
    metas: Vec<ErasedMeta<UserData>>,
}

impl<UserData> View for TypeErasedVec<UserData> {
    type V = Seq<(Seq<u8>, UserData)>;

    closed spec fn view(&self) -> Seq<(Seq<u8>, UserData)> {
        Seq::new(
            self.metas@.len(),
            |i: int|
                (
                    self.bytes@.subrange(
                        self.metas@[i].offset as int,
                        self.metas@[i].offset + self.metas@[i].size,
                    ),
                    self.metas@[i].user_data,
                ),
        )
    }
}

/// Chained spans never overlap: an earlier record ends no later than a later
/// one begins.
proof fn lemma_spans_disjoint<UserData>(
    metas: Seq<ErasedMeta<UserData>>,
    arena_len: nat,
    i: int,
    j: int,
)
    requires
        spans_chained(metas, arena_len),
        0 <= i < j < metas.len(),
    ensures
        metas[i].offset + metas[i].size <= metas[j].offset,
    decreases j - i,
{
    if j > i + 1 {
        lemma_spans_disjoint(metas, arena_len, i, j - 1);
    }
}

/// Copies `size` bytes starting at `offset` out of the arena.
fn copy_range(bytes: &Vec<u8>, offset: usize, size: usize) -> (chunk: Vec<u8>)
    requires
        offset + size <= bytes@.len(),
    ensures
        chunk@ == bytes@.subrange(offset as int, offset + size),
{
    let arena_len = bytes.len();
    let mut chunk: Vec<u8> = Vec::new();
    let mut j: usize = 0;
    proof {
        assert(chunk@ =~= bytes@.subrange(offset as int, offset as int));
    }
    while j < size
        invariant
            j <= size,
            offset + size <= arena_len,
            arena_len == bytes@.len(),
            chunk@ == bytes@.subrange(offset as int, offset + j),
        decreases size - j,
    {
        chunk.push(bytes[offset + j]);
        j = j + 1;
        proof {
            assert(chunk@ =~= bytes@.subrange(offset as int, offset + j));
        }
    }
    chunk
}

impl<UserData> TypeErasedVec<UserData> {
    /// All records lie inside the arena, back to back.
    #[verifier::type_invariant]
    spec fn wf(self) -> bool {
        spans_chained(self.metas@, self.bytes@.len())
    }

    /// An empty buffer.
    pub fn new() -> (v: Self)
        ensures
            v@ == Seq::<(Seq<u8>, UserData)>::empty(),
    {
        let v = TypeErasedVec { bytes: Vec::new(), metas: Vec::new() };
        proof {
            assert(v@ =~= Seq::<(Seq<u8>, UserData)>::empty());
        }
        v
    }

    /// Appends one record: the value's raw bytes are copied to the arena's
    /// end and one metadata entry is added. Ownership of the bytes passes to
    /// the buffer; a zero-sized value occupies zero bytes and still makes one
    /// record.
    pub fn push(&mut self, value: Vec<u8>, user_data: UserData)
        ensures
            final(self)@ == old(self)@.push((value@, user_data)),
    {
        proof {
            use_type_invariant(&*self);
        }
        let ghost orig = self@;
        let ghost vbytes = value@;
        let ghost ud = user_data;
        let mut metas: Vec<ErasedMeta<UserData>> = Vec::new();
        let mut bytes: Vec<u8> = Vec::new();
        std::mem::swap(&mut metas, &mut self.metas);
        std::mem::swap(&mut bytes, &mut self.bytes);
        let offset = bytes.len();
        let size = value.len();
        let mut value = value;
        bytes.append(&mut value);
        metas.push(ErasedMeta { offset, size, user_data });
        std::mem::swap(&mut bytes, &mut self.bytes);
        proof {
            assert(spans_chained(self.metas@, self.bytes@.len()));
        }
        std::mem::swap(&mut metas, &mut self.metas);
        proof {
            assert forall|i: int| 0 <= i < self@.len() implies self@[i] == orig.push(
                (vbytes, ud),
            )[i] by {
                if i < orig.len() {
                    assert(self@[i].0 =~= orig[i].0);
                } else {
                    assert(self@[i].0 =~= vbytes);
                }
            }
            assert(self@ =~= orig.push((vbytes, ud)));
        }
    }

    /// Removes every record, in insertion order, and returns each one's bytes
    /// (a bit-identical copy of what was pushed) together with its metadata,
    /// handed over by value. The buffer is empty afterwards. Reconstructing
    /// and destroying the original value from the bytes is the caller's
    /// responsibility: only it knows the real type.
    pub fn drain(&mut self) -> (drained: Vec<(Vec<u8>, UserData)>)
        ensures
            final(self)@ == Seq::<(Seq<u8>, UserData)>::empty(),
            drained@.len() == old(self)@.len(),
            forall|i: int|
                0 <= i < drained@.len() ==> (#[trigger] drained@[i]).0@ == old(self)@[i].0
                    && drained@[i].1 == old(self)@[i].1,
    {
        proof {
            use_type_invariant(&*self);
        }
        let ghost orig = self@;
        let mut metas: Vec<ErasedMeta<UserData>> = Vec::new();
        let mut bytes: Vec<u8> = Vec::new();
        std::mem::swap(&mut metas, &mut self.metas);
        std::mem::swap(&mut bytes, &mut self.bytes);
        let ghost orig_metas = metas@;
        let ghost orig_bytes = bytes@;
        proof {
            assert(metas@ =~= orig_metas.skip(0));
            assert(self@ =~= Seq::<(Seq<u8>, UserData)>::empty());
        }
        let mut drained: Vec<(Vec<u8>, UserData)> = Vec::new();
        while metas.len() > 0
            invariant
                drained@.len() + metas@.len() == orig_metas.len(),
                metas@ == orig_metas.skip(drained@.len() as int),
                bytes@ == orig_bytes,
                orig.len() == orig_metas.len(),
                spans_chained(orig_metas, orig_bytes.len()),
                forall|i: int|
                    0 <= i < orig_metas.len() ==> orig[i] == (
                        orig_bytes.subrange(
                            (#[trigger] orig_metas[i]).offset as int,
                            orig_metas[i].offset + orig_metas[i].size,
                        ),
                        orig_metas[i].user_data,
                    ),
                forall|i: int|
                    0 <= i < drained@.len() ==> (#[trigger] drained@[i]).0@ == orig[i].0
                        && drained@[i].1 == orig[i].1,
            decreases metas@.len(),
        {
            let ghost k = drained@.len() as int;
            let m = metas.remove(0);
            proof {
                assert(m == orig_metas.skip(k)[0]);
                assert(metas@ =~= orig_metas.skip(k + 1));
            }
            let chunk = copy_range(&bytes, m.offset, m.size);
            drained.push((chunk, m.user_data));
        }
        drained
    }

    /// Empties the arena and the metadata table without visiting anything:
    /// an unreclaimed drain. Any non-trivial resources held by values that
    /// were never drained are intentionally left behind; that is the caller's
    /// documented contract, not a defect.
    pub fn clear(&mut self)
        ensures
            final(self)@ == Seq::<(Seq<u8>, UserData)>::empty(),
    {
        let mut metas: Vec<ErasedMeta<UserData>> = Vec::new();
        let mut bytes: Vec<u8> = Vec::new();
        std::mem::swap(&mut metas, &mut self.metas);
        std::mem::swap(&mut bytes, &mut self.bytes);
        proof {
            assert(self@ =~= Seq::<(Seq<u8>, UserData)>::empty());
        }
    }

    /// Live-record count.
    pub fn len(&self) -> (n: usize)
        ensures
            n == self@.len(),
    {
        self.metas.len()
    }

    /// True exactly when no record is live.
    pub fn is_empty(&self) -> (r: bool)
        ensures
            r == (self@.len() == 0),
    {
        self.len() == 0
    }

    /// A bit-identical copy of one live record's bytes, left in place.
    pub fn record_bytes(&self, index: usize) -> (chunk: Vec<u8>)
        requires
            index < self@.len(),
        ensures
            chunk@ == self@[index as int].0,
    {
        proof {
            use_type_invariant(self);
        }
        let offset = self.metas[index].offset;
        let size = self.metas[index].size;
        copy_range(&self.bytes, offset, size)
    }

    /// Overwrites one live record's bytes in place, for in-place mutation of
    /// a stored value; the record's metadata and every other record stay as
    /// they are. The replacement must have the record's exact size.
    pub fn set_record_bytes(&mut self, index: usize, value: &Vec<u8>)
        requires
            index < old(self)@.len(),
            value@.len() == old(self)@[index as int].0.len(),
        ensures
            final(self)@ == old(self)@.update(
                index as int,
                (value@, old(self)@[index as int].1),
            ),
    {
        proof {
            use_type_invariant(&*self);
        }
        let ghost orig = self@;
        let ghost orig_bytes = self.bytes@;
        let ghost orig_metas = self.metas@;
        let offset = self.metas[index].offset;
        let size = self.metas[index].size;
        let arena_len = self.bytes.len();
        proof {
            assert(orig[index as int].0 =~= orig_bytes.subrange(
                offset as int,
                offset + size,
            ));
        }
        let mut j: usize = 0;
        while j < size
            invariant
                j <= size,
                index < orig_metas.len(),
                value@.len() == size,
                offset == orig_metas[index as int].offset,
                size == orig_metas[index as int].size,
                offset + size <= arena_len,
                arena_len == orig_bytes.len(),
                self.metas@ == orig_metas,
                self.bytes@.len() == orig_bytes.len(),
                spans_chained(self.metas@, self.bytes@.len() as nat),
                forall|k: int|
                    0 <= k < orig_bytes.len() && !(offset <= k < offset + j)
                        ==> self.bytes@[k] == orig_bytes[k],
                forall|k: int| 0 <= k < j ==> self.bytes@[offset + k] == value@[k],
            decreases size - j,
        {
            let b = value[j];
            *vstd::std_specs::vec::vec_index_mut(&mut self.bytes, offset + j) = b;
            j = j + 1;
        }
        proof {
            let updated = orig.update(index as int, (value@, orig[index as int].1));
            assert forall|r: int| 0 <= r < self@.len() implies self@[r] == updated[r] by {
                if r == index {
                    assert(self@[r].0 =~= value@);
                } else {
                    if r < index {
                        lemma_spans_disjoint(
                            orig_metas,
                            orig_bytes.len() as nat,
                            r,
                            index as int,
                        );
                    } else {
                        lemma_spans_disjoint(
                            orig_metas,
                            orig_bytes.len() as nat,
                            index as int,
                            r,
                        );
                    }
                    assert(self@[r].0 =~= orig[r].0);
                }
            }
            assert(self@ =~= updated);
        }
    }

    /// Borrows one live record's metadata, left in the table.
    pub fn user_data(&self, index: usize) -> (r: &UserData)
        requires
            index < self@.len(),
        ensures
            *r == self@[index as int].1,
    {
        &self.metas[index].user_data
    }
}

} // verus!
