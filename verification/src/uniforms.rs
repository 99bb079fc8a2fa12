use vstd::prelude::*;
use crate::error::RendererError;

verus! {

/// One palette colour, eight bits per channel.
#[derive(Clone, Copy, Debug, PartialEq, Eq, Structural)]
pub struct Rgba {
    pub r: u8,
    pub g: u8,
    pub b: u8,
    pub a: u8,
}

/// Number of entries of the static palette block.
pub const PALETTE_SIZE: usize = 256;

/// Bit pattern of the single-precision float `0.5`.
pub const HALF_BITS: u32 = 0x3F00_0000;

/// Bit pattern of the single-precision float `-0.5`.
pub const MINUS_HALF_BITS: u32 = 0xBF00_0000;

/// A colour as one 32-bit word: red in the lowest byte, alpha in the highest.
pub open spec fn spec_pack_rgba(c: Rgba) -> u32 {
    (c.r as u32) | ((c.g as u32) << 8) | ((c.b as u32) << 16) | ((c.a as u32) << 24)
}

pub fn pack_rgba(c: &Rgba) -> (word: u32)
    ensures
        word == spec_pack_rgba(*c),
{
    (c.r as u32) | ((c.g as u32) << 8) | ((c.b as u32) << 16) | ((c.a as u32) << 24)
}

/// Each channel can be read back from its own byte of the packed word, so
/// packing loses nothing.
pub proof fn lemma_pack_rgba_channels(c: Rgba)
    ensures
        spec_pack_rgba(c) & 0xff == c.r,
        (spec_pack_rgba(c) >> 8) & 0xff == c.g,
        (spec_pack_rgba(c) >> 16) & 0xff == c.b,
        (spec_pack_rgba(c) >> 24) & 0xff == c.a,
{
    let (r, g, b, a) = (c.r, c.g, c.b, c.a);
    assert(((r as u32) | ((g as u32) << 8) | ((b as u32) << 16) | ((a as u32) << 24)) & 0xff == r)
        by (bit_vector);
    assert((((r as u32) | ((g as u32) << 8) | ((b as u32) << 16) | ((a as u32) << 24)) >> 8) & 0xff
        == g) by (bit_vector);
    assert((((r as u32) | ((g as u32) << 8) | ((b as u32) << 16) | ((a as u32) << 24)) >> 16) & 0xff
        == b) by (bit_vector);
    assert((((r as u32) | ((g as u32) << 8) | ((b as u32) << 16) | ((a as u32) << 24)) >> 24) & 0xff
        == a) by (bit_vector);
}

/// The static palette block: entry `i` is the packed colour `i` where the
/// palette has one, and zero from the palette's end up to 256. Colours past
/// the 256th are ignored.
pub open spec fn spec_pack_palette(palette: Seq<Rgba>) -> Seq<u32> {
    Seq::new(
        PALETTE_SIZE as nat,
        |i: int| if i < palette.len() { spec_pack_rgba(palette[i]) } else { 0u32 },
    )
}

pub fn pack_palette(palette: &[Rgba]) -> (packed: Vec<u32>)
    ensures
        packed@ == spec_pack_palette(palette@),
{
    let mut packed: Vec<u32> = Vec::with_capacity(PALETTE_SIZE);
    let mut i: usize = 0;
    while i < PALETTE_SIZE
        invariant
            i <= PALETTE_SIZE,
            packed@.len() == i,
            forall|j: int| 0 <= j < i ==> packed@[j] == spec_pack_palette(palette@)[j],
        decreases PALETTE_SIZE - i,
    {
        if i < palette.len() {
            packed.push(pack_rgba(&palette[i]));
        } else {
            packed.push(0);
        }
        i += 1;
    }
    assert(packed@ =~= spec_pack_palette(palette@));
    packed
}

/// Byte `k` (0 = least significant) of a 32-bit word.
pub open spec fn word_byte(w: u32, k: int) -> u8 {
    if k == 0 {
        (w % 256) as u8
    } else if k == 1 {
        ((w / 0x100) % 256) as u8
    } else if k == 2 {
        ((w / 0x1_0000) % 256) as u8
    } else {
        (w / 0x100_0000) as u8
    }
}

/// `bytes` holds the words in order, four bytes each, least significant first.
pub open spec fn is_little_endian_image(words: Seq<u32>, bytes: Seq<u8>) -> bool {
    &&& bytes.len() == 4 * words.len()
    &&& forall|j: int| 0 <= j < bytes.len() ==> #[trigger] bytes[j] == word_byte(words[j / 4], j % 4)
}

/// `bytes` holds the words in order, four bytes each, most significant first.
pub open spec fn is_big_endian_image(words: Seq<u32>, bytes: Seq<u8>) -> bool {
    &&& bytes.len() == 4 * words.len()
    &&& forall|j: int|
        0 <= j < bytes.len() ==> #[trigger] bytes[j] == word_byte(words[j / 4], 3 - j % 4)
}

/// `bytes` is what the words look like in the memory of some machine.
pub open spec fn is_memory_image(words: Seq<u32>, bytes: Seq<u8>) -> bool {
    is_little_endian_image(words, bytes) || is_big_endian_image(words, bytes)
}

/// Calls `bytemuck::cast_slice` from `u32` to `u8` and copies the bytes out.
///
/// Trusted: the cast reinterprets the words' memory in place, so the result
/// has four bytes per word, in word order, each word laid out in the byte
/// order of the machine: little endian or big endian, the same for all words.
/// The cast cannot fail in this direction, as bytes need no alignment and
/// every length is a whole number of bytes.
#[verifier::external_body]
fn cast_words(words: &[u32]) -> (bytes: Vec<u8>)
    ensures
        is_memory_image(words@, bytes@),
{
    bytemuck::cast_slice::<u32, u8>(words).to_vec()
}

/// The bytes of a block of words, as they are handed to a GPU buffer.
pub fn block_bytes(words: &[u32]) -> (bytes: Vec<u8>)
    ensures
        is_memory_image(words@, bytes@),
{
    cast_words(words)
}

/// A memory image has four bytes for each word.
pub proof fn lemma_image_length(words: Seq<u32>, bytes: Seq<u8>)
    requires
        is_memory_image(words, bytes),
    ensures
        bytes.len() == 4 * words.len(),
{
}

/// Two sequences of words with one memory image in one byte order are the
/// same sequence.
pub proof fn lemma_little_endian_image_is_exact(a: Seq<u32>, b: Seq<u32>, bytes: Seq<u8>)
    requires
        is_little_endian_image(a, bytes),
        is_little_endian_image(b, bytes),
    ensures
        a == b,
{
    assert forall|i: int| 0 <= i < a.len() implies a[i] == b[i] by {
        let (x, y) = (a[i], b[i]);
        assert(bytes[4 * i] == word_byte(x, 0) && bytes[4 * i] == word_byte(y, 0));
        assert(bytes[4 * i + 1] == word_byte(x, 1) && bytes[4 * i + 1] == word_byte(y, 1));
        assert(bytes[4 * i + 2] == word_byte(x, 2) && bytes[4 * i + 2] == word_byte(y, 2));
        assert(bytes[4 * i + 3] == word_byte(x, 3) && bytes[4 * i + 3] == word_byte(y, 3));
        lemma_word_from_bytes(x);
        lemma_word_from_bytes(y);
    }
    assert(a =~= b);
}

/// A word is the sum of its four bytes, each at its place.
pub proof fn lemma_word_from_bytes(w: u32)
    ensures
        w == word_byte(w, 0) + 0x100 * word_byte(w, 1) + 0x1_0000 * word_byte(w, 2) + 0x100_0000
            * word_byte(w, 3),
{
}

/// Per-frame block: the view-projection matrix, the camera position and one
/// word of padding, 80 bytes in all. The words are float bit patterns.
pub open spec fn spec_per_frame_words(vp_matrix: Seq<u32>, camera_position: Seq<u32>) -> Seq<u32> {
    vp_matrix + camera_position + seq![0u32]
}

pub fn per_frame_words(vp_matrix: &[u32], camera_position: &[u32]) -> (res: Result<
    Vec<u32>,
    RendererError,
>)
    ensures
        res is Ok <==> vp_matrix@.len() == 16 && camera_position@.len() == 3,
        res matches Ok(words) ==> words@ == spec_per_frame_words(vp_matrix@, camera_position@),
        res matches Err(e) ==> e == RendererError::ContractViolation,
{
    if vp_matrix.len() != 16 || camera_position.len() != 3 {
        return Err(RendererError::ContractViolation);
    }
    let mut words: Vec<u32> = Vec::with_capacity(20);
    append_words(&mut words, vp_matrix);
    append_words(&mut words, camera_position);
    words.push(0);
    assert(words@ =~= spec_per_frame_words(vp_matrix@, camera_position@));
    Ok(words)
}

/// Pushes every word of `tail` onto `words`, in order.
pub fn append_words(words: &mut Vec<u32>, tail: &[u32])
    ensures
        final(words)@ == old(words)@ + tail@,
{
    let mut i: usize = 0;
    while i < tail.len()
        invariant
            i <= tail@.len(),
            words@ == old(words)@ + tail@.subrange(0, i as int),
        decreases tail@.len() - i,
    {
        words.push(tail[i]);
        i += 1;
        assert(words@ =~= old(words)@ + tail@.subrange(0, i as int));
    }
    assert(tail@.subrange(0, i as int) =~= tail@);
}

/// Lighting block: the three components of the light direction, then the
/// ambient term. The words are float bit patterns.
pub open spec fn spec_lighting_words(light_dir: Seq<u32>, ambient: u32) -> Seq<u32> {
    light_dir + seq![ambient]
}

pub fn lighting_words(light_dir: &[u32], ambient: u32) -> (res: Result<Vec<u32>, RendererError>)
    ensures
        res is Ok <==> light_dir@.len() == 3,
        res matches Ok(words) ==> words@ == spec_lighting_words(light_dir@, ambient),
        res matches Err(e) ==> e == RendererError::ContractViolation,
{
    if light_dir.len() != 3 {
        return Err(RendererError::ContractViolation);
    }
    let mut words: Vec<u32> = Vec::with_capacity(4);
    append_words(&mut words, light_dir);
    words.push(ambient);
    Ok(words)
}

/// Per-draw block: the model matrix, then its inverse.
pub open spec fn spec_per_draw_words(model: Seq<u32>, inverse: Seq<u32>) -> Seq<u32> {
    model + inverse
}

pub fn per_draw_words(model: &[u32], inverse: &[u32]) -> (res: Result<Vec<u32>, RendererError>)
    ensures
        res is Ok <==> model@.len() == 16 && inverse@.len() == 16,
        res matches Ok(words) ==> words@ == spec_per_draw_words(model@, inverse@),
        res matches Err(e) ==> e == RendererError::ContractViolation,
{
    if model.len() != 16 || inverse.len() != 16 {
        return Err(RendererError::ContractViolation);
    }
    let mut words: Vec<u32> = Vec::with_capacity(32);
    append_words(&mut words, model);
    append_words(&mut words, inverse);
    Ok(words)
}

} // verus!
