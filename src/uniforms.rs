use vstd::prelude::*;

verus! {

/// Number of 32-bit words in the uniform block: three 16-byte slots.
pub const UNIFORM_WORDS: usize = 12;

/// Size in bytes of the uniform block.
pub const UNIFORM_BYTES: usize = 48;

/// The uniform block as words. Each field starts on a 16-byte boundary:
/// `time` in word 0, `pointer` in words 4 and 5, `resolution` in words 8
/// and 9; every other word is zero padding. Scalars are given as the bit
/// patterns of their 32-bit floats.
pub open spec fn uniform_layout(time: u32, pointer: Seq<u32>, resolution: Seq<u32>) -> Seq<u32> {
    seq![
        time, 0, 0, 0,
        pointer[0], pointer[1], 0, 0,
        resolution[0], resolution[1], 0, 0,
    ]
}

/// The word at index `i` of `bytes`, read in little-endian order when `le`
/// holds and in big-endian order otherwise.
pub open spec fn word_at(bytes: Seq<u8>, i: int, le: bool) -> u32 {
    let b0 = bytes[4 * i] as u32;
    let b1 = bytes[4 * i + 1] as u32;
    let b2 = bytes[4 * i + 2] as u32;
    let b3 = bytes[4 * i + 3] as u32;
    if le {
        (b0 | (b1 << 8u32) | (b2 << 16u32) | (b3 << 24u32)) as u32
    } else {
        (b3 | (b2 << 8u32) | (b1 << 16u32) | (b0 << 24u32)) as u32
    }
}

/// `bytes` holds the words of `words` one after another in the byte order `le`.
pub open spec fn words_in_order(bytes: Seq<u8>, words: Seq<u32>, le: bool) -> bool {
    forall|i: int| 0 <= i < words.len() ==> #[trigger] word_at(bytes, i, le) == words[i]
}

/// `bytes` holds the words of `words` one after another, all in one byte order.
pub open spec fn holds_words(bytes: Seq<u8>, words: Seq<u32>) -> bool {
    &&& bytes.len() == 4 * words.len()
    &&& exists|le: bool| #[trigger] words_in_order(bytes, words, le)
}

/// Relies on bytemuck::cast_slice from `u32` to `u8`: it views the same
/// memory, four bytes per word in the machine's byte order, and cannot fail
/// for this pair of types (the target alignment is one and any byte count is
/// a whole number of bytes).
#[verifier::external_body]
fn words_as_bytes(words: &[u32]) -> (r: Vec<u8>)
    ensures
        holds_words(r@, words@),
{
    bytemuck::cast_slice::<u32, u8>(words).to_vec()
}

/// The uniform block as words, in the layout of `uniform_layout`.
pub fn uniform_words(time: u32, pointer: [u32; 2], resolution: [u32; 2]) -> (r: Vec<u32>)
    ensures
        r@ == uniform_layout(time, pointer@, resolution@),
        r@.len() == UNIFORM_WORDS,
{
    let mut r: Vec<u32> = Vec::new();
    r.push(time);
    r.push(0);
    r.push(0);
    r.push(0);
    r.push(pointer[0]);
    r.push(pointer[1]);
    r.push(0);
    r.push(0);
    r.push(resolution[0]);
    r.push(resolution[1]);
    r.push(0);
    r.push(0);
    assert(r@ =~= uniform_layout(time, pointer@, resolution@));
    r
}

/// The bytes written to the device's uniform buffer for one frame.
pub fn encode_uniforms(time: u32, pointer: [u32; 2], resolution: [u32; 2]) -> (r: Vec<u8>)
    ensures
        r@.len() == UNIFORM_BYTES,
        holds_words(r@, uniform_layout(time, pointer@, resolution@)),
{
    let words = uniform_words(time, pointer, resolution);
    words_as_bytes(words.as_slice())
}

} // verus!
