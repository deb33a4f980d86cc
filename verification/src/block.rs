//! A byte-range view over a ROM buffer: a position, a size, and, once
//! resolved, the bytes of the range.

use vstd::prelude::*;

verus! {

/// A (position, size) window over a memory buffer, together with the
/// resolved bytes once `value_from` has copied them out.
#[derive(Debug, Clone)]
pub struct Block {
    pub pos: usize,
    pub size: usize,
    pub value: Option<Vec<u8>>,
}

/// Ghost model of a `Block`.
pub struct BlockModel {
    pub pos: int,
    pub size: int,
    pub value: Option<Seq<u8>>,
}

impl View for Block {
    type V = BlockModel;

    open spec fn view(&self) -> BlockModel {
        BlockModel {
            pos: self.pos as int,
            size: self.size as int,
            value: match self.value {
                Some(ref v) => Some(v@),
                None => None,
            },
        }
    }
}

impl Block {
    pub fn new(pos: usize, size: usize) -> (r: Self)
        ensures
            r.pos == pos,
            r.size == size,
            r.value is None,
    {
        Self { pos, size, value: None }
    }

    pub fn default() -> (r: Self)
        ensures
            r.pos == 0,
            r.size == 0,
            r.value is None,
    {
        Block { pos: 0, size: 0, value: None }
    }

    /// Resolve the block's bytes out of `mem`. A buffer too short to cover
    /// the range leaves the block untouched.
    pub fn value_from(&mut self, mem: &Vec<u8>)
        ensures
            final(self).pos == old(self).pos,
            final(self).size == old(self).size,
            old(self).pos + old(self).size <= mem@.len() ==> final(self)@.value
                == Some(mem@.subrange(old(self).pos as int, old(self).pos + old(self).size)),
            old(self).pos + old(self).size > mem@.len() ==> final(self).value == old(self).value,
    {
        if self.pos > mem.len() || mem.len() - self.pos < self.size {
            return;
        }

        let mut bytes: Vec<u8> = Vec::new();
        let mut i: usize = self.pos;
        let dest = self.pos + self.size;
        while i < dest
            invariant
                self.pos <= i <= dest,
                dest == self.pos + self.size <= mem@.len(),
                bytes@ == mem@.subrange(self.pos as int, i as int),
            decreases dest - i,
        {
            bytes.push(mem[i]);
            proof {
                assert(bytes@ =~= mem@.subrange(self.pos as int, i + 1));
            }
            i = i + 1;
        }
        self.value = Some(bytes);
    }
}

} // verus!
