//! Byte images of plain-old-data values of `u32` words, as they are written
//! into GPU buffers, and the outside calls that produce them.

use vstd::prelude::*;

verus! {

/// The four bytes of `x`, least significant first.
pub open spec fn u32_le_bytes(x: u32) -> Seq<u8> {
    seq![
        (x % 0x100) as u8,
        ((x / 0x100) % 0x100) as u8,
        ((x / 0x1_0000) % 0x100) as u8,
        ((x / 0x100_0000) % 0x100) as u8,
    ]
}

/// The four bytes of `x` in the given byte order.
pub open spec fn u32_bytes(x: u32, little_endian: bool) -> Seq<u8> {
    if little_endian {
        u32_le_bytes(x)
    } else {
        u32_le_bytes(x).reverse()
    }
}

/// The bytes of a sequence of `u32` words laid out one after another, each in
/// the given byte order.
pub open spec fn words_bytes(words: Seq<u32>, little_endian: bool) -> Seq<u8>
    decreases words.len(),
{
    if words.len() == 0 {
        Seq::empty()
    } else {
        words_bytes(words.drop_last(), little_endian) + u32_bytes(words.last(), little_endian)
    }
}

/// `bytes` is the in-memory image of `words` on a machine of either byte
/// order: the words one after another, each in the machine's byte order.
pub open spec fn is_words_image(bytes: Seq<u8>, words: Seq<u32>) -> bool {
    bytes == words_bytes(words, true) || bytes == words_bytes(words, false)
}

/// The image of `n` words is `4 * n` bytes long.
pub proof fn lemma_words_bytes_len(words: Seq<u32>, little_endian: bool)
    ensures
        words_bytes(words, little_endian).len() == 4 * words.len(),
    decreases words.len(),
{
    if words.len() > 0 {
        lemma_words_bytes_len(words.drop_last(), little_endian);
    }
}

/// Calls `bytemuck::bytes_of` on a `u32` and copies the bytes out. bytemuck
/// hands out the value's own memory, so the bytes are the value's four bytes
/// in the byte order of the machine; which order that is is not stated.
#[verifier::external_body]
pub(crate) fn u32_pod_bytes(value: u32) -> (bytes: Vec<u8>)
    ensures
        is_words_image(bytes@, seq![value]),
{
    bytemuck::bytes_of(&value).to_vec()
}

/// Calls `wgpu::util::DrawIndirectArgs::as_bytes` on the arguments of an
/// indirect draw and copies the bytes out. wgpu declares the struct
/// `#[repr(C)]` with four `u32` fields in this order and returns
/// `bytemuck::bytes_of(self)`, so the bytes are the four words one after
/// another in the machine's byte order; which order that is is not stated.
#[verifier::external_body]
pub(crate) fn draw_indirect_args_bytes(
    vertex_count: u32,
    instance_count: u32,
    first_vertex: u32,
    first_instance: u32,
) -> (bytes: Vec<u8>)
    ensures
        is_words_image(bytes@, seq![vertex_count, instance_count, first_vertex, first_instance]),
{
    wgpu::util::DrawIndirectArgs { vertex_count, instance_count, first_vertex, first_instance }
        .as_bytes()
        .to_vec()
}

/// Calls `wgpu::util::DispatchIndirectArgs::as_bytes` on the work group
/// counts of an indirect dispatch and copies the bytes out. wgpu declares the
/// struct `#[repr(C)]` with the `u32` fields `x`, `y`, `z` in this order and
/// returns `bytemuck::bytes_of(self)`; the machine's byte order is not stated.
#[verifier::external_body]
pub(crate) fn dispatch_indirect_args_bytes(x: u32, y: u32, z: u32) -> (bytes: Vec<u8>)
    ensures
        is_words_image(bytes@, seq![x, y, z]),
{
    wgpu::util::DispatchIndirectArgs { x, y, z }.as_bytes().to_vec()
}

} // verus!
