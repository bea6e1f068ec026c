//! A model of the GPU-visible uniform buffer: a fixed-size byte region into
//! which a write replaces one sub-range and leaves every other byte alone.
use vstd::prelude::*;

verus! {

/// A fixed-size byte region.
pub struct UniformBuffer {
    pub bytes: Vec<u8>,
}

/// The region `bytes` after `data` was written at `offset`.
pub open spec fn written(bytes: Seq<u8>, offset: int, data: Seq<u8>) -> Seq<u8> {
    bytes.subrange(0, offset) + data + bytes.subrange(offset + data.len(), bytes.len() as int)
}

impl UniformBuffer {
    /// A region of `size` zero bytes.
    pub fn new(size: usize) -> (r: UniformBuffer)
        ensures
            r.bytes@ == Seq::new(size as nat, |i: int| 0u8),
    {
        let mut bytes: Vec<u8> = Vec::with_capacity(size);
        let mut i: usize = 0;
        while i < size
            invariant
                i <= size,
                bytes@ == Seq::new(i as nat, |j: int| 0u8),
            decreases size - i,
        {
            bytes.push(0);
            i = i + 1;
            assert(bytes@ =~= Seq::new(i as nat, |j: int| 0u8));
        }
        UniformBuffer { bytes }
    }

    pub fn len(&self) -> (r: usize)
        ensures
            r == self.bytes@.len(),
    {
        self.bytes.len()
    }

    /// Writes `data` at `offset`. Bytes outside `[offset, offset + data.len())`
    /// keep their values; the size of the region does not change.
    pub fn write(&mut self, offset: usize, data: &[u8])
        requires
            offset + data@.len() <= old(self).bytes@.len(),
        ensures
            final(self).bytes@ == written(old(self).bytes@, offset as int, data@),
            final(self).bytes@.len() == old(self).bytes@.len(),
            forall|i: int|
                0 <= i < old(self).bytes@.len() && !(offset <= i < offset + data@.len())
                    ==> #[trigger] final(self).bytes@[i] == old(self).bytes@[i],
            forall|i: int|
                0 <= i < data@.len() ==> #[trigger] final(self).bytes@[offset + i] == data@[i],
    {
        let n = data.len();
        let total = self.bytes.len();
        let mut j: usize = 0;
        while j < n
            invariant
                j <= n,
                n == data@.len(),
                offset + n <= total,
                total == old(self).bytes@.len(),
                self.bytes@.len() == total,
                forall|i: int|
                    0 <= i < old(self).bytes@.len() && !(offset <= i < offset + j)
                        ==> self.bytes@[i] == old(self).bytes@[i],
                forall|i: int| 0 <= i < j ==> self.bytes@[offset + i] == data@[i],
            decreases n - j,
        {
            self.bytes[offset + j] = data[j];
            j = j + 1;
        }
        assert(self.bytes@ =~= written(old(self).bytes@, offset as int, data@));
    }
}

} // verus!
