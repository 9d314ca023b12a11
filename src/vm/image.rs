//! The image loader: a big-endian origin word, then big-endian words that
//! are stored from the origin up.

use vstd::prelude::*;
use crate::vm::machine::{Machine, MEMORY_SIZE};
use crate::vm::run::VM;

verus! {

/// Why an image could not be loaded.
#[derive(Debug, Clone, Copy, PartialEq, Eq, Structural)]
pub enum LoadError {
    /// Fewer than two bytes: no origin.
    Truncated,
    /// The byte source failed while it was read.
    Io,
}

/// The word whose big-endian bytes are `hi`, `lo`.
pub open spec fn be_word(hi: u8, lo: u8) -> u16 {
    (hi as int * 256 + lo as int) as u16
}

pub open spec fn image_origin(b: Seq<u8>) -> u16 {
    be_word(b[0], b[1])
}

/// Word `k` of the image after its origin.
pub open spec fn image_word(b: Seq<u8>, k: int) -> u16 {
    be_word(b[2 + 2 * k], b[3 + 2 * k])
}

/// How many words are stored: every whole word after the origin, as far as
/// the top of memory.
pub open spec fn image_count(b: Seq<u8>) -> int {
    let whole = (b.len() - 2) / 2;
    let room = MEMORY_SIZE - image_origin(b);
    if whole < room {
        whole
    } else {
        room
    }
}

/// Memory `mem` once the image `b` is stored in it.
pub open spec fn loaded(mem: Seq<u16>, b: Seq<u8>) -> Seq<u16> {
    let o = image_origin(b) as int;
    Seq::new(
        mem.len(),
        |a: int|
            if o <= a < o + image_count(b) {
                image_word(b, a - o)
            } else {
                mem[a]
            },
    )
}

fn word_from_be(hi: u8, lo: u8) -> (r: u16)
    ensures
        r == be_word(hi, lo),
{
    assert((((hi as u16) << 8u16) | (lo as u16)) as int == hi as int * 256 + lo as int)
        by (bit_vector);
    ((hi as u16) << 8) | (lo as u16)
}

impl VM {
    /// Loads an image: fails with `Truncated` when it holds fewer than two
    /// bytes, and changes nothing then. Otherwise stores its words from the
    /// origin up, stopping at the end of the image (a trailing odd byte is
    /// ignored) or at the top of memory; nothing else changes.
    pub fn load_image(&mut self, image: &[u8]) -> (r: Result<(), LoadError>)
        requires
            old(self).wf(),
        ensures
            final(self).wf(),
            image@.len() >= 2 <==> r is Ok,
            image@.len() < 2 <==> r == Err::<(), LoadError>(LoadError::Truncated),
            r is Err ==> final(self)@ == old(self)@,
            r is Ok ==> final(self)@ == (Machine { mem: loaded(old(self)@.mem, image@), ..old(self)@ }),
    {
        if image.len() < 2 {
            return Err(LoadError::Truncated);
        }
        let origin = word_from_be(image[0], image[1]) as usize;
        let whole = (image.len() - 2) / 2;
        let room = MEMORY_SIZE - origin;
        let count = if whole < room {
            whole
        } else {
            room
        };
        let ghost start = self@;
        let mut k: usize = 0;
        while k < count
            invariant
                self.wf(),
                k <= count,
                count == image_count(image@),
                origin == image_origin(image@),
                self@.regs == start.regs,
                self@.key == start.key,
                start.mem.len() == MEMORY_SIZE,
                forall|a: int|
                    0 <= a < MEMORY_SIZE ==> #[trigger] self@.mem[a] == if origin <= a < origin + k {
                        image_word(image@, a - origin)
                    } else {
                        start.mem[a]
                    },
            decreases count - k,
        {
            let w = word_from_be(image[2 + 2 * k], image[3 + 2 * k]);
            self.memory[origin + k] = w;
            k = k + 1;
        }
        assert(self@.mem =~= loaded(start.mem, image@));
        Ok(())
    }
}

} // verus!
