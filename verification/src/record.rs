//! The simulation-parameter record and its device layout.

use vstd::endian::{endianness, Endian};
use vstd::prelude::*;

verus! {

/// Size in bytes of one record as the device sees it.
pub const SLIME_SIZE: u64 = 16;

/// The four bytes of `word`, least significant first.
pub open spec fn le_bytes(word: u32) -> Seq<u8> {
    seq![
        (word % 0x100) as u8,
        ((word / 0x100) % 0x100) as u8,
        ((word / 0x1_0000) % 0x100) as u8,
        ((word / 0x100_0000) % 0x100) as u8,
    ]
}

/// The four bytes of `word`, most significant first.
pub open spec fn be_bytes(word: u32) -> Seq<u8> {
    seq![
        ((word / 0x100_0000) % 0x100) as u8,
        ((word / 0x1_0000) % 0x100) as u8,
        ((word / 0x100) % 0x100) as u8,
        (word % 0x100) as u8,
    ]
}

/// The four bytes that `word` occupies in memory on the executing machine.
pub open spec fn native_bytes(word: u32) -> Seq<u8> {
    match endianness() {
        Endian::Little => le_bytes(word),
        Endian::Big => be_bytes(word),
    }
}

/// The four bytes of `bytes` that hold word number `i`.
pub open spec fn word_at(bytes: Seq<u8>, i: int) -> Seq<u8> {
    bytes.subrange(4 * i, 4 * i + 4)
}

/// `bytes` is the in-memory image of `words`: four bytes per word, in order.
pub open spec fn is_memory_image(words: Seq<u32>, bytes: Seq<u8>) -> bool {
    &&& bytes.len() == 4 * words.len()
    &&& forall|i: int|
        0 <= i < words.len() ==> #[trigger] word_at(bytes, i) == native_bytes(words[i])
}

/// Reinterprets a slice of words as the bytes it occupies in memory, through
/// `bytemuck::cast_slice::<u32, u8>`. The cast keeps the address and the total
/// size, so the result holds four bytes per word in the machine's byte order. It
/// cannot fail: a byte has alignment 1 and size 1.
#[verifier::external_body]
fn cast_words(words: &[u32]) -> (bytes: Vec<u8>)
    ensures
        is_memory_image(words@, bytes@),
{
    bytemuck::cast_slice::<u32, u8>(words).to_vec()
}

/// Simulation parameters as decoded from an asset file.
///
/// Each field holds the bit pattern of a 32-bit IEEE 754 number. Only `value`
/// carries meaning; the three padding words bring the record to the 16-byte
/// stride that storage buffers ask for.
#[derive(Debug, Clone, Copy, PartialEq, Eq, Structural)]
pub struct Slime {
    pub value: u32,
    pub _padding0: u32,
    pub _padding1: u32,
    pub _padding2: u32,
}

impl Default for Slime {
    /// The record whose four words are all zero.
    fn default() -> (slime: Slime)
        ensures
            slime == Slime::zeroed(),
    {
        Slime { value: 0, _padding0: 0, _padding1: 0, _padding2: 0 }
    }
}

impl Slime {
    /// The record whose four words are all zero.
    pub open spec fn zeroed() -> Slime {
        Slime { value: 0, _padding0: 0, _padding1: 0, _padding2: 0 }
    }

    /// The record as a sequence of words, in field order.
    pub open spec fn words(self) -> Seq<u32> {
        seq![self.value, self._padding0, self._padding1, self._padding2]
    }

    /// The record's device layout: its four words in memory order.
    pub open spec fn layout(self) -> Seq<u8> {
        native_bytes(self.value) + native_bytes(self._padding0) + native_bytes(self._padding1)
            + native_bytes(self._padding2)
    }

    /// A record with the given logical value and zeroed padding.
    pub fn new(value: u32) -> (slime: Slime)
        ensures
            slime == (Slime { value, _padding0: 0, _padding1: 0, _padding2: 0 }),
    {
        Slime { value, _padding0: 0, _padding1: 0, _padding2: 0 }
    }

    /// The bytes to upload for this record.
    pub fn to_bytes(&self) -> (bytes: Vec<u8>)
        ensures
            bytes@ == self.layout(),
            bytes@.len() == SLIME_SIZE,
    {
        let words: [u32; 4] = [self.value, self._padding0, self._padding1, self._padding2];
        let bytes = cast_words(words.as_slice());
        proof {
            lemma_layout_len(*self);
            assert(words@ == self.words());
            let b = bytes@;
            assert(word_at(b, 0) == native_bytes(words@[0]));
            assert(word_at(b, 1) == native_bytes(words@[1]));
            assert(word_at(b, 2) == native_bytes(words@[2]));
            assert(word_at(b, 3) == native_bytes(words@[3]));
            assert(b =~= b.subrange(0, 4) + b.subrange(4, 8) + b.subrange(8, 12) + b.subrange(
                12,
                16,
            ));
        }
        bytes
    }
}

/// A word always occupies four bytes.
pub proof fn lemma_native_bytes_len(word: u32)
    ensures
        native_bytes(word).len() == 4,
{
}

/// A record's layout is exactly `SLIME_SIZE` bytes long.
pub proof fn lemma_layout_len(slime: Slime)
    ensures
        slime.layout().len() == SLIME_SIZE,
{
    lemma_native_bytes_len(slime.value);
    lemma_native_bytes_len(slime._padding0);
    lemma_native_bytes_len(slime._padding1);
    lemma_native_bytes_len(slime._padding2);
}

/// The word whose bytes, least significant first, are `bytes`.
pub open spec fn word_of_le_bytes(bytes: Seq<u8>) -> int {
    bytes[0] + 0x100 * bytes[1] + 0x1_0000 * bytes[2] + 0x100_0000 * bytes[3]
}

/// The four bytes of a word say which word it is.
pub proof fn lemma_native_bytes_determine_word(a: u32, b: u32)
    requires
        native_bytes(a) == native_bytes(b),
    ensures
        a == b,
{
    assert(word_of_le_bytes(le_bytes(a)) == a);
    assert(word_of_le_bytes(le_bytes(b)) == b);
    assert(word_of_le_bytes(be_bytes(a).reverse()) == a);
    assert(word_of_le_bytes(be_bytes(b).reverse()) == b);
}

/// The device layout loses nothing: two records with the same layout are the
/// same record, padding included.
pub proof fn lemma_layout_determines_record(a: Slime, b: Slime)
    requires
        a.layout() == b.layout(),
    ensures
        a == b,
{
    lemma_layout_len(a);
    let image = a.layout();
    assert(image.subrange(0, 4) =~= native_bytes(a.value));
    assert(image.subrange(0, 4) =~= native_bytes(b.value));
    assert(image.subrange(4, 8) =~= native_bytes(a._padding0));
    assert(image.subrange(4, 8) =~= native_bytes(b._padding0));
    assert(image.subrange(8, 12) =~= native_bytes(a._padding1));
    assert(image.subrange(8, 12) =~= native_bytes(b._padding1));
    assert(image.subrange(12, 16) =~= native_bytes(a._padding2));
    assert(image.subrange(12, 16) =~= native_bytes(b._padding2));
    lemma_native_bytes_determine_word(a.value, b.value);
    lemma_native_bytes_determine_word(a._padding0, b._padding0);
    lemma_native_bytes_determine_word(a._padding1, b._padding1);
    lemma_native_bytes_determine_word(a._padding2, b._padding2);
}

} // verus!
