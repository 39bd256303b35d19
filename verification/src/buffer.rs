//! The GPU buffers of the renderer: their sizes, the bytes they start with or
//! are updated with, and the size check that wraps an existing buffer.

use vstd::prelude::*;

use crate::bytes::{
    dispatch_indirect_args_bytes, draw_indirect_args_bytes, is_words_image, lemma_words_bytes_len,
    u32_le_bytes, u32_pod_bytes, words_bytes,
};

verus! {

/// Declares `wgpu::Buffer`, a handle to a GPU buffer; its contents are not
/// seen here.
#[verifier::external_type_specification]
#[verifier::external_body]
pub struct ExBuffer(wgpu::Buffer);

/// Size in bytes of the camera data: a view and a projection matrix of 16
/// `f32` each, the target size as two `f32`, and two `u32` of padding.
pub const CAMERA_POD_SIZE: u64 = 144;

/// Size in bytes of the arguments of an indirect draw: four `u32`.
pub const DRAW_INDIRECT_ARGS_SIZE: u64 = 16;

/// Size in bytes of the arguments of an indirect dispatch: three `u32`.
pub const DISPATCH_INDIRECT_ARGS_SIZE: u64 = 12;

/// Size in bytes of a viewport position: two `f32`.
pub const VIEWPORT_POS_SIZE: u64 = 8;

/// Size in bytes of a single `f32`.
pub const F32_SIZE: u64 = 4;

/// Size in bytes of a single `u32`.
pub const U32_SIZE: u64 = 4;

/// The number of vertices of the quad that each Gaussian is drawn as.
pub const QUAD_VERTEX_COUNT: u32 = 6;

/// The error of wrapping a buffer whose size is not that of the data it holds.
#[derive(PartialEq, Eq, Structural, Debug, Clone, Copy)]
pub enum FixedSizeBufferWrapperError {
    BufferSizeMismatched { buffer_size: u64, expected_size: u64 },
}

/// The size in bytes of a GPU buffer, as `wgpu::Buffer::size` reports it.
pub uninterp spec fn buffer_byte_size(buffer: wgpu::Buffer) -> u64;

/// Calls `wgpu::Buffer::size`, which reads the size the buffer was created
/// with; the claim is only that the result is that size of this buffer.
#[verifier::external_body]
fn buffer_size(buffer: &wgpu::Buffer) -> (size: u64)
    ensures
        size == buffer_byte_size(*buffer),
{
    buffer.size()
}

/// Specifies `Clone::clone` of `wgpu::Buffer`, which wgpu derives: the clone
/// is another handle to the same GPU buffer and copies its size field, so it
/// reports the same size. Nothing else is claimed.
pub assume_specification[ <wgpu::Buffer as Clone>::clone ](buffer: &wgpu::Buffer) -> (copy: wgpu::Buffer)
    ensures
        buffer_byte_size(copy) == buffer_byte_size(*buffer),
;

/// Accept a buffer of `buffer_size` bytes for data of `expected_size` bytes
/// exactly when the two sizes are equal.
pub fn verify_buffer_size(buffer_size: u64, expected_size: u64) -> (r: Result<
    (),
    FixedSizeBufferWrapperError,
>)
    ensures
        r == (if buffer_size == expected_size {
            Ok(())
        } else {
            Err(FixedSizeBufferWrapperError::BufferSizeMismatched { buffer_size, expected_size })
        }),
{
    if buffer_size != expected_size {
        return Err(FixedSizeBufferWrapperError::BufferSizeMismatched { buffer_size, expected_size });
    }
    Ok(())
}

/// Check the size of `buffer` against `expected_size`.
fn check_buffer(buffer: &wgpu::Buffer, expected_size: u64) -> (r: Result<
    (),
    FixedSizeBufferWrapperError,
>)
    ensures
        r == (if buffer_byte_size(*buffer) == expected_size {
            Ok(())
        } else {
            Err(
                FixedSizeBufferWrapperError::BufferSizeMismatched {
                    buffer_size: buffer_byte_size(*buffer),
                    expected_size,
                },
            )
        }),
{
    verify_buffer_size(buffer_size(buffer), expected_size)
}

/// The size in bytes of the index buffer for `gaussian_count` Gaussians: one
/// `u32` per Gaussian.
pub fn indirect_indices_buffer_size(gaussian_count: u32) -> (size: u64)
    requires
        gaussian_count * 4 <= u32::MAX,
    ensures
        size == gaussian_count * 4,
{
    (gaussian_count * 4) as u64
}

/// The bytes an indirect draw buffer starts with: a draw of the quad
/// vertices for zero instances, from the first vertex and instance.
pub fn indirect_args_initial_bytes() -> (bytes: Vec<u8>)
    ensures
        is_words_image(bytes@, seq![QUAD_VERTEX_COUNT, 0u32, 0u32, 0u32]),
{
    draw_indirect_args_bytes(QUAD_VERTEX_COUNT, 0, 0, 0)
}

/// The bytes an indirect dispatch buffer of the radix sort starts with: one
/// work group in each dimension.
pub fn radix_sort_indirect_args_initial_bytes() -> (bytes: Vec<u8>)
    ensures
        is_words_image(bytes@, seq![1u32, 1u32, 1u32]),
{
    dispatch_indirect_args_bytes(1, 1, 1)
}

/// The word that encodes whether the selection is inverted: 1 or 0.
pub open spec fn invert_selection_word(invert: bool) -> u32 {
    if invert {
        1
    } else {
        0
    }
}

/// The bytes the invert-selection buffer holds for `invert`.
pub fn invert_selection_bytes(invert: bool) -> (bytes: Vec<u8>)
    ensures
        is_words_image(bytes@, seq![invert_selection_word(invert)]),
{
    let value: u32 = if invert { 1 } else { 0 };
    u32_pod_bytes(value)
}

/// The bytes the invert-selection buffer starts with: the selection is
/// inverted.
pub fn invert_selection_initial_bytes() -> (bytes: Vec<u8>)
    ensures
        is_words_image(bytes@, seq![invert_selection_word(true)]),
{
    invert_selection_bytes(true)
}

/// The bytes a buffer starts with fill it exactly: the initial draw and
/// dispatch arguments and the invert-selection word are as long as the
/// buffers made for them.
pub proof fn lemma_initial_bytes_fill_buffers(draw: Seq<u8>, dispatch: Seq<u8>, invert: Seq<u8>, flag: bool)
    requires
        is_words_image(draw, seq![QUAD_VERTEX_COUNT, 0u32, 0u32, 0u32]),
        is_words_image(dispatch, seq![1u32, 1u32, 1u32]),
        is_words_image(invert, seq![invert_selection_word(flag)]),
    ensures
        draw.len() == DRAW_INDIRECT_ARGS_SIZE,
        dispatch.len() == DISPATCH_INDIRECT_ARGS_SIZE,
        invert.len() == U32_SIZE,
{
    lemma_words_bytes_len(seq![QUAD_VERTEX_COUNT, 0u32, 0u32, 0u32], true);
    lemma_words_bytes_len(seq![QUAD_VERTEX_COUNT, 0u32, 0u32, 0u32], false);
    lemma_words_bytes_len(seq![1u32, 1u32, 1u32], true);
    lemma_words_bytes_len(seq![1u32, 1u32, 1u32], false);
    lemma_words_bytes_len(seq![invert_selection_word(flag)], true);
    lemma_words_bytes_len(seq![invert_selection_word(flag)], false);
}

/// An inverted selection is encoded as the word 1, a plain one as 0.
pub proof fn lemma_invert_selection_word()
    ensures
        invert_selection_word(true) == 1,
        invert_selection_word(false) == 0,
{
}

/// The invert-selection buffer holds different bytes for an inverted and a
/// plain selection, whatever the byte order.
pub proof fn lemma_invert_selection_distinguishes(inverted: Seq<u8>, plain: Seq<u8>)
    requires
        is_words_image(inverted, seq![invert_selection_word(true)]),
        is_words_image(plain, seq![invert_selection_word(false)]),
    ensures
        inverted != plain,
{
    let one = seq![1u32];
    let zero = seq![0u32];
    assert(one.drop_last() =~= Seq::<u32>::empty());
    assert(zero.drop_last() =~= Seq::<u32>::empty());
    assert(words_bytes(one.drop_last(), true) =~= Seq::<u8>::empty());
    assert(words_bytes(one.drop_last(), false) =~= Seq::<u8>::empty());
    assert(u32_le_bytes(1u32) =~= seq![1u8, 0u8, 0u8, 0u8]);
    assert(u32_le_bytes(1u32).reverse() =~= seq![0u8, 0u8, 0u8, 1u8]);
    assert(words_bytes(one, true) =~= seq![1u8, 0u8, 0u8, 0u8]);
    assert(words_bytes(one, false) =~= seq![0u8, 0u8, 0u8, 1u8]);
    assert(words_bytes(zero, true) =~= seq![0u8, 0u8, 0u8, 0u8]);
    assert(words_bytes(zero, false) =~= seq![0u8, 0u8, 0u8, 0u8]);
    if inverted == plain {
        assert(inverted[0] != plain[0] || inverted[3] != plain[3]);
    }
}

/// The camera uniform buffer, holding one camera record.
#[derive(Debug)]
pub struct CameraBuffer(wgpu::Buffer);

impl CameraBuffer {
    /// The wrapped buffer.
    pub closed spec fn inner(&self) -> wgpu::Buffer {
        self.0
    }

    /// The wrapped buffer is exactly as large as a camera record.
    #[verifier::type_invariant]
    closed spec fn sized(self) -> bool {
        buffer_byte_size(self.0) == CAMERA_POD_SIZE
    }

    /// The size in bytes of the data the buffer holds.
    pub fn pod_size() -> (size: u64)
        ensures
            size == CAMERA_POD_SIZE,
    {
        CAMERA_POD_SIZE
    }

    /// Wrap `buffer` if it is exactly as large as the data it holds; otherwise
    /// report both sizes.
    pub fn try_from(buffer: wgpu::Buffer) -> (r: Result<Self, FixedSizeBufferWrapperError>)
        ensures
            r matches Ok(w) ==> w.inner() == buffer,
            r is Ok <==> buffer_byte_size(buffer) == CAMERA_POD_SIZE,
            r matches Err(e) ==> e == (FixedSizeBufferWrapperError::BufferSizeMismatched {
                buffer_size: buffer_byte_size(buffer),
                expected_size: CAMERA_POD_SIZE,
            }),
    {
        match check_buffer(&buffer, CAMERA_POD_SIZE) {
            Ok(()) => Ok(CameraBuffer(buffer)),
            Err(e) => Err(e),
        }
    }

    /// The wrapped buffer.
    pub fn buffer(&self) -> (b: &wgpu::Buffer)
        ensures
            *b == self.inner(),
            buffer_byte_size(*b) == CAMERA_POD_SIZE,
    {
        proof {
            use_type_invariant(self);
        }
        &self.0
    }

    /// Unwrap the buffer.
    pub fn into_buffer(self) -> (b: wgpu::Buffer)
        ensures
            b == self.inner(),
            buffer_byte_size(b) == CAMERA_POD_SIZE,
    {
        proof {
            use_type_invariant(&self);
        }
        self.0
    }
}

impl Clone for CameraBuffer {
    /// Another handle to the same buffer.
    fn clone(&self) -> (copy: Self)
        ensures
            buffer_byte_size(copy.inner()) == CAMERA_POD_SIZE,
    {
        proof {
            use_type_invariant(self);
        }
        CameraBuffer(self.0.clone())
    }
}

impl From<CameraBuffer> for wgpu::Buffer {
    fn from(wrapper: CameraBuffer) -> (b: wgpu::Buffer) {
        wrapper.into_buffer()
    }
}

impl vstd::std_specs::convert::FromSpecImpl<CameraBuffer> for wgpu::Buffer {
    open spec fn obeys_from_spec() -> bool {
        true
    }

    open spec fn from_spec(wrapper: CameraBuffer) -> wgpu::Buffer {
        wrapper.inner()
    }
}

impl TryFrom<wgpu::Buffer> for CameraBuffer {
    type Error = FixedSizeBufferWrapperError;

    fn try_from(buffer: wgpu::Buffer) -> (r: Result<CameraBuffer, FixedSizeBufferWrapperError>)
        ensures
            r matches Ok(w) ==> w.inner() == buffer,
            r is Ok <==> buffer_byte_size(buffer) == CAMERA_POD_SIZE,
            r matches Err(e) ==> e == (FixedSizeBufferWrapperError::BufferSizeMismatched {
                buffer_size: buffer_byte_size(buffer),
                expected_size: CAMERA_POD_SIZE,
            }),
    {
        CameraBuffer::try_from(buffer)
    }
}

impl vstd::std_specs::convert::TryFromSpecImpl<wgpu::Buffer> for CameraBuffer {
    open spec fn obeys_try_from_spec() -> bool {
        true
    }

    closed spec fn try_from_spec(buffer: wgpu::Buffer) -> Result<CameraBuffer, FixedSizeBufferWrapperError> {
        if buffer_byte_size(buffer) == CAMERA_POD_SIZE {
            Ok(CameraBuffer(buffer))
        } else {
            Err(FixedSizeBufferWrapperError::BufferSizeMismatched {
                buffer_size: buffer_byte_size(buffer),
                expected_size: CAMERA_POD_SIZE,
            })
        }
    }
}

/// The storage buffer of the indirect draw arguments.
#[derive(Debug)]
pub struct IndirectArgsBuffer(wgpu::Buffer);

impl IndirectArgsBuffer {
    /// The wrapped buffer.
    pub closed spec fn inner(&self) -> wgpu::Buffer {
        self.0
    }

    /// The wrapped buffer is exactly as large as the arguments of an indirect draw.
    #[verifier::type_invariant]
    closed spec fn sized(self) -> bool {
        buffer_byte_size(self.0) == DRAW_INDIRECT_ARGS_SIZE
    }

    /// The size in bytes of the data the buffer holds.
    pub fn pod_size() -> (size: u64)
        ensures
            size == DRAW_INDIRECT_ARGS_SIZE,
    {
        DRAW_INDIRECT_ARGS_SIZE
    }

    /// Wrap `buffer` if it is exactly as large as the data it holds; otherwise
    /// report both sizes.
    pub fn try_from(buffer: wgpu::Buffer) -> (r: Result<Self, FixedSizeBufferWrapperError>)
        ensures
            r matches Ok(w) ==> w.inner() == buffer,
            r is Ok <==> buffer_byte_size(buffer) == DRAW_INDIRECT_ARGS_SIZE,
            r matches Err(e) ==> e == (FixedSizeBufferWrapperError::BufferSizeMismatched {
                buffer_size: buffer_byte_size(buffer),
                expected_size: DRAW_INDIRECT_ARGS_SIZE,
            }),
    {
        match check_buffer(&buffer, DRAW_INDIRECT_ARGS_SIZE) {
            Ok(()) => Ok(IndirectArgsBuffer(buffer)),
            Err(e) => Err(e),
        }
    }

    /// The wrapped buffer.
    pub fn buffer(&self) -> (b: &wgpu::Buffer)
        ensures
            *b == self.inner(),
            buffer_byte_size(*b) == DRAW_INDIRECT_ARGS_SIZE,
    {
        proof {
            use_type_invariant(self);
        }
        &self.0
    }

    /// Unwrap the buffer.
    pub fn into_buffer(self) -> (b: wgpu::Buffer)
        ensures
            b == self.inner(),
            buffer_byte_size(b) == DRAW_INDIRECT_ARGS_SIZE,
    {
        proof {
            use_type_invariant(&self);
        }
        self.0
    }
}

impl Clone for IndirectArgsBuffer {
    /// Another handle to the same buffer.
    fn clone(&self) -> (copy: Self)
        ensures
            buffer_byte_size(copy.inner()) == DRAW_INDIRECT_ARGS_SIZE,
    {
        proof {
            use_type_invariant(self);
        }
        IndirectArgsBuffer(self.0.clone())
    }
}

impl From<IndirectArgsBuffer> for wgpu::Buffer {
    fn from(wrapper: IndirectArgsBuffer) -> (b: wgpu::Buffer) {
        wrapper.into_buffer()
    }
}

impl vstd::std_specs::convert::FromSpecImpl<IndirectArgsBuffer> for wgpu::Buffer {
    open spec fn obeys_from_spec() -> bool {
        true
    }

    open spec fn from_spec(wrapper: IndirectArgsBuffer) -> wgpu::Buffer {
        wrapper.inner()
    }
}

impl TryFrom<wgpu::Buffer> for IndirectArgsBuffer {
    type Error = FixedSizeBufferWrapperError;

    fn try_from(buffer: wgpu::Buffer) -> (r: Result<IndirectArgsBuffer, FixedSizeBufferWrapperError>)
        ensures
            r matches Ok(w) ==> w.inner() == buffer,
            r is Ok <==> buffer_byte_size(buffer) == DRAW_INDIRECT_ARGS_SIZE,
            r matches Err(e) ==> e == (FixedSizeBufferWrapperError::BufferSizeMismatched {
                buffer_size: buffer_byte_size(buffer),
                expected_size: DRAW_INDIRECT_ARGS_SIZE,
            }),
    {
        IndirectArgsBuffer::try_from(buffer)
    }
}

impl vstd::std_specs::convert::TryFromSpecImpl<wgpu::Buffer> for IndirectArgsBuffer {
    open spec fn obeys_try_from_spec() -> bool {
        true
    }

    closed spec fn try_from_spec(buffer: wgpu::Buffer) -> Result<IndirectArgsBuffer, FixedSizeBufferWrapperError> {
        if buffer_byte_size(buffer) == DRAW_INDIRECT_ARGS_SIZE {
            Ok(IndirectArgsBuffer(buffer))
        } else {
            Err(FixedSizeBufferWrapperError::BufferSizeMismatched {
                buffer_size: buffer_byte_size(buffer),
                expected_size: DRAW_INDIRECT_ARGS_SIZE,
            })
        }
    }
}

/// The storage buffer of the radix sort's indirect dispatch arguments.
#[derive(Debug)]
pub struct RadixSortIndirectArgsBuffer(wgpu::Buffer);

impl RadixSortIndirectArgsBuffer {
    /// The wrapped buffer.
    pub closed spec fn inner(&self) -> wgpu::Buffer {
        self.0
    }

    /// The wrapped buffer is exactly as large as the arguments of an indirect dispatch.
    #[verifier::type_invariant]
    closed spec fn sized(self) -> bool {
        buffer_byte_size(self.0) == DISPATCH_INDIRECT_ARGS_SIZE
    }

    /// The size in bytes of the data the buffer holds.
    pub fn pod_size() -> (size: u64)
        ensures
            size == DISPATCH_INDIRECT_ARGS_SIZE,
    {
        DISPATCH_INDIRECT_ARGS_SIZE
    }

    /// Wrap `buffer` if it is exactly as large as the data it holds; otherwise
    /// report both sizes.
    pub fn try_from(buffer: wgpu::Buffer) -> (r: Result<Self, FixedSizeBufferWrapperError>)
        ensures
            r matches Ok(w) ==> w.inner() == buffer,
            r is Ok <==> buffer_byte_size(buffer) == DISPATCH_INDIRECT_ARGS_SIZE,
            r matches Err(e) ==> e == (FixedSizeBufferWrapperError::BufferSizeMismatched {
                buffer_size: buffer_byte_size(buffer),
                expected_size: DISPATCH_INDIRECT_ARGS_SIZE,
            }),
    {
        match check_buffer(&buffer, DISPATCH_INDIRECT_ARGS_SIZE) {
            Ok(()) => Ok(RadixSortIndirectArgsBuffer(buffer)),
            Err(e) => Err(e),
        }
    }

    /// The wrapped buffer.
    pub fn buffer(&self) -> (b: &wgpu::Buffer)
        ensures
            *b == self.inner(),
            buffer_byte_size(*b) == DISPATCH_INDIRECT_ARGS_SIZE,
    {
        proof {
            use_type_invariant(self);
        }
        &self.0
    }

    /// Unwrap the buffer.
    pub fn into_buffer(self) -> (b: wgpu::Buffer)
        ensures
            b == self.inner(),
            buffer_byte_size(b) == DISPATCH_INDIRECT_ARGS_SIZE,
    {
        proof {
            use_type_invariant(&self);
        }
        self.0
    }
}

impl Clone for RadixSortIndirectArgsBuffer {
    /// Another handle to the same buffer.
    fn clone(&self) -> (copy: Self)
        ensures
            buffer_byte_size(copy.inner()) == DISPATCH_INDIRECT_ARGS_SIZE,
    {
        proof {
            use_type_invariant(self);
        }
        RadixSortIndirectArgsBuffer(self.0.clone())
    }
}

impl From<RadixSortIndirectArgsBuffer> for wgpu::Buffer {
    fn from(wrapper: RadixSortIndirectArgsBuffer) -> (b: wgpu::Buffer) {
        wrapper.into_buffer()
    }
}

impl vstd::std_specs::convert::FromSpecImpl<RadixSortIndirectArgsBuffer> for wgpu::Buffer {
    open spec fn obeys_from_spec() -> bool {
        true
    }

    open spec fn from_spec(wrapper: RadixSortIndirectArgsBuffer) -> wgpu::Buffer {
        wrapper.inner()
    }
}

impl TryFrom<wgpu::Buffer> for RadixSortIndirectArgsBuffer {
    type Error = FixedSizeBufferWrapperError;

    fn try_from(buffer: wgpu::Buffer) -> (r: Result<RadixSortIndirectArgsBuffer, FixedSizeBufferWrapperError>)
        ensures
            r matches Ok(w) ==> w.inner() == buffer,
            r is Ok <==> buffer_byte_size(buffer) == DISPATCH_INDIRECT_ARGS_SIZE,
            r matches Err(e) ==> e == (FixedSizeBufferWrapperError::BufferSizeMismatched {
                buffer_size: buffer_byte_size(buffer),
                expected_size: DISPATCH_INDIRECT_ARGS_SIZE,
            }),
    {
        RadixSortIndirectArgsBuffer::try_from(buffer)
    }
}

impl vstd::std_specs::convert::TryFromSpecImpl<wgpu::Buffer> for RadixSortIndirectArgsBuffer {
    open spec fn obeys_try_from_spec() -> bool {
        true
    }

    closed spec fn try_from_spec(buffer: wgpu::Buffer) -> Result<RadixSortIndirectArgsBuffer, FixedSizeBufferWrapperError> {
        if buffer_byte_size(buffer) == DISPATCH_INDIRECT_ARGS_SIZE {
            Ok(RadixSortIndirectArgsBuffer(buffer))
        } else {
            Err(FixedSizeBufferWrapperError::BufferSizeMismatched {
                buffer_size: buffer_byte_size(buffer),
                expected_size: DISPATCH_INDIRECT_ARGS_SIZE,
            })
        }
    }
}

/// The uniform buffer of a viewport selection position.
#[derive(Debug)]
pub struct ViewportTexturePosBuffer(wgpu::Buffer);

impl ViewportTexturePosBuffer {
    /// The wrapped buffer.
    pub closed spec fn inner(&self) -> wgpu::Buffer {
        self.0
    }

    /// The wrapped buffer is exactly as large as a viewport position.
    #[verifier::type_invariant]
    closed spec fn sized(self) -> bool {
        buffer_byte_size(self.0) == VIEWPORT_POS_SIZE
    }

    /// The size in bytes of the data the buffer holds.
    pub fn pod_size() -> (size: u64)
        ensures
            size == VIEWPORT_POS_SIZE,
    {
        VIEWPORT_POS_SIZE
    }

    /// Wrap `buffer` if it is exactly as large as the data it holds; otherwise
    /// report both sizes.
    pub fn try_from(buffer: wgpu::Buffer) -> (r: Result<Self, FixedSizeBufferWrapperError>)
        ensures
            r matches Ok(w) ==> w.inner() == buffer,
            r is Ok <==> buffer_byte_size(buffer) == VIEWPORT_POS_SIZE,
            r matches Err(e) ==> e == (FixedSizeBufferWrapperError::BufferSizeMismatched {
                buffer_size: buffer_byte_size(buffer),
                expected_size: VIEWPORT_POS_SIZE,
            }),
    {
        match check_buffer(&buffer, VIEWPORT_POS_SIZE) {
            Ok(()) => Ok(ViewportTexturePosBuffer(buffer)),
            Err(e) => Err(e),
        }
    }

    /// The wrapped buffer.
    pub fn buffer(&self) -> (b: &wgpu::Buffer)
        ensures
            *b == self.inner(),
            buffer_byte_size(*b) == VIEWPORT_POS_SIZE,
    {
        proof {
            use_type_invariant(self);
        }
        &self.0
    }

    /// Unwrap the buffer.
    pub fn into_buffer(self) -> (b: wgpu::Buffer)
        ensures
            b == self.inner(),
            buffer_byte_size(b) == VIEWPORT_POS_SIZE,
    {
        proof {
            use_type_invariant(&self);
        }
        self.0
    }
}

impl Clone for ViewportTexturePosBuffer {
    /// Another handle to the same buffer.
    fn clone(&self) -> (copy: Self)
        ensures
            buffer_byte_size(copy.inner()) == VIEWPORT_POS_SIZE,
    {
        proof {
            use_type_invariant(self);
        }
        ViewportTexturePosBuffer(self.0.clone())
    }
}

impl From<ViewportTexturePosBuffer> for wgpu::Buffer {
    fn from(wrapper: ViewportTexturePosBuffer) -> (b: wgpu::Buffer) {
        wrapper.into_buffer()
    }
}

impl vstd::std_specs::convert::FromSpecImpl<ViewportTexturePosBuffer> for wgpu::Buffer {
    open spec fn obeys_from_spec() -> bool {
        true
    }

    open spec fn from_spec(wrapper: ViewportTexturePosBuffer) -> wgpu::Buffer {
        wrapper.inner()
    }
}

impl TryFrom<wgpu::Buffer> for ViewportTexturePosBuffer {
    type Error = FixedSizeBufferWrapperError;

    fn try_from(buffer: wgpu::Buffer) -> (r: Result<ViewportTexturePosBuffer, FixedSizeBufferWrapperError>)
        ensures
            r matches Ok(w) ==> w.inner() == buffer,
            r is Ok <==> buffer_byte_size(buffer) == VIEWPORT_POS_SIZE,
            r matches Err(e) ==> e == (FixedSizeBufferWrapperError::BufferSizeMismatched {
                buffer_size: buffer_byte_size(buffer),
                expected_size: VIEWPORT_POS_SIZE,
            }),
    {
        ViewportTexturePosBuffer::try_from(buffer)
    }
}

impl vstd::std_specs::convert::TryFromSpecImpl<wgpu::Buffer> for ViewportTexturePosBuffer {
    open spec fn obeys_try_from_spec() -> bool {
        true
    }

    closed spec fn try_from_spec(buffer: wgpu::Buffer) -> Result<ViewportTexturePosBuffer, FixedSizeBufferWrapperError> {
        if buffer_byte_size(buffer) == VIEWPORT_POS_SIZE {
            Ok(ViewportTexturePosBuffer(buffer))
        } else {
            Err(FixedSizeBufferWrapperError::BufferSizeMismatched {
                buffer_size: buffer_byte_size(buffer),
                expected_size: VIEWPORT_POS_SIZE,
            })
        }
    }
}

/// The uniform buffer of a single viewport selection parameter.
#[derive(Debug)]
pub struct ViewportTextureF32Buffer(wgpu::Buffer);

impl ViewportTextureF32Buffer {
    /// The wrapped buffer.
    pub closed spec fn inner(&self) -> wgpu::Buffer {
        self.0
    }

    /// The wrapped buffer is exactly as large as one `f32`.
    #[verifier::type_invariant]
    closed spec fn sized(self) -> bool {
        buffer_byte_size(self.0) == F32_SIZE
    }

    /// The size in bytes of the data the buffer holds.
    pub fn pod_size() -> (size: u64)
        ensures
            size == F32_SIZE,
    {
        F32_SIZE
    }

    /// Wrap `buffer` if it is exactly as large as the data it holds; otherwise
    /// report both sizes.
    pub fn try_from(buffer: wgpu::Buffer) -> (r: Result<Self, FixedSizeBufferWrapperError>)
        ensures
            r matches Ok(w) ==> w.inner() == buffer,
            r is Ok <==> buffer_byte_size(buffer) == F32_SIZE,
            r matches Err(e) ==> e == (FixedSizeBufferWrapperError::BufferSizeMismatched {
                buffer_size: buffer_byte_size(buffer),
                expected_size: F32_SIZE,
            }),
    {
        match check_buffer(&buffer, F32_SIZE) {
            Ok(()) => Ok(ViewportTextureF32Buffer(buffer)),
            Err(e) => Err(e),
        }
    }

    /// The wrapped buffer.
    pub fn buffer(&self) -> (b: &wgpu::Buffer)
        ensures
            *b == self.inner(),
            buffer_byte_size(*b) == F32_SIZE,
    {
        proof {
            use_type_invariant(self);
        }
        &self.0
    }

    /// Unwrap the buffer.
    pub fn into_buffer(self) -> (b: wgpu::Buffer)
        ensures
            b == self.inner(),
            buffer_byte_size(b) == F32_SIZE,
    {
        proof {
            use_type_invariant(&self);
        }
        self.0
    }
}

impl Clone for ViewportTextureF32Buffer {
    /// Another handle to the same buffer.
    fn clone(&self) -> (copy: Self)
        ensures
            buffer_byte_size(copy.inner()) == F32_SIZE,
    {
        proof {
            use_type_invariant(self);
        }
        ViewportTextureF32Buffer(self.0.clone())
    }
}

impl From<ViewportTextureF32Buffer> for wgpu::Buffer {
    fn from(wrapper: ViewportTextureF32Buffer) -> (b: wgpu::Buffer) {
        wrapper.into_buffer()
    }
}

impl vstd::std_specs::convert::FromSpecImpl<ViewportTextureF32Buffer> for wgpu::Buffer {
    open spec fn obeys_from_spec() -> bool {
        true
    }

    open spec fn from_spec(wrapper: ViewportTextureF32Buffer) -> wgpu::Buffer {
        wrapper.inner()
    }
}

impl TryFrom<wgpu::Buffer> for ViewportTextureF32Buffer {
    type Error = FixedSizeBufferWrapperError;

    fn try_from(buffer: wgpu::Buffer) -> (r: Result<ViewportTextureF32Buffer, FixedSizeBufferWrapperError>)
        ensures
            r matches Ok(w) ==> w.inner() == buffer,
            r is Ok <==> buffer_byte_size(buffer) == F32_SIZE,
            r matches Err(e) ==> e == (FixedSizeBufferWrapperError::BufferSizeMismatched {
                buffer_size: buffer_byte_size(buffer),
                expected_size: F32_SIZE,
            }),
    {
        ViewportTextureF32Buffer::try_from(buffer)
    }
}

impl vstd::std_specs::convert::TryFromSpecImpl<wgpu::Buffer> for ViewportTextureF32Buffer {
    open spec fn obeys_try_from_spec() -> bool {
        true
    }

    closed spec fn try_from_spec(buffer: wgpu::Buffer) -> Result<ViewportTextureF32Buffer, FixedSizeBufferWrapperError> {
        if buffer_byte_size(buffer) == F32_SIZE {
            Ok(ViewportTextureF32Buffer(buffer))
        } else {
            Err(FixedSizeBufferWrapperError::BufferSizeMismatched {
                buffer_size: buffer_byte_size(buffer),
                expected_size: F32_SIZE,
            })
        }
    }
}

/// The uniform buffer that tells the preprocessor whether the selection is inverted.
#[derive(Debug)]
pub struct PreprocessorInvertSelectionBuffer(wgpu::Buffer);

impl PreprocessorInvertSelectionBuffer {
    /// The wrapped buffer.
    pub closed spec fn inner(&self) -> wgpu::Buffer {
        self.0
    }

    /// The wrapped buffer is exactly as large as one `u32`.
    #[verifier::type_invariant]
    closed spec fn sized(self) -> bool {
        buffer_byte_size(self.0) == U32_SIZE
    }

    /// The size in bytes of the data the buffer holds.
    pub fn pod_size() -> (size: u64)
        ensures
            size == U32_SIZE,
    {
        U32_SIZE
    }

    /// Wrap `buffer` if it is exactly as large as the data it holds; otherwise
    /// report both sizes.
    pub fn try_from(buffer: wgpu::Buffer) -> (r: Result<Self, FixedSizeBufferWrapperError>)
        ensures
            r matches Ok(w) ==> w.inner() == buffer,
            r is Ok <==> buffer_byte_size(buffer) == U32_SIZE,
            r matches Err(e) ==> e == (FixedSizeBufferWrapperError::BufferSizeMismatched {
                buffer_size: buffer_byte_size(buffer),
                expected_size: U32_SIZE,
            }),
    {
        match check_buffer(&buffer, U32_SIZE) {
            Ok(()) => Ok(PreprocessorInvertSelectionBuffer(buffer)),
            Err(e) => Err(e),
        }
    }

    /// The wrapped buffer.
    pub fn buffer(&self) -> (b: &wgpu::Buffer)
        ensures
            *b == self.inner(),
            buffer_byte_size(*b) == U32_SIZE,
    {
        proof {
            use_type_invariant(self);
        }
        &self.0
    }

    /// Unwrap the buffer.
    pub fn into_buffer(self) -> (b: wgpu::Buffer)
        ensures
            b == self.inner(),
            buffer_byte_size(b) == U32_SIZE,
    {
        proof {
            use_type_invariant(&self);
        }
        self.0
    }
}

impl Clone for PreprocessorInvertSelectionBuffer {
    /// Another handle to the same buffer.
    fn clone(&self) -> (copy: Self)
        ensures
            buffer_byte_size(copy.inner()) == U32_SIZE,
    {
        proof {
            use_type_invariant(self);
        }
        PreprocessorInvertSelectionBuffer(self.0.clone())
    }
}

impl From<PreprocessorInvertSelectionBuffer> for wgpu::Buffer {
    fn from(wrapper: PreprocessorInvertSelectionBuffer) -> (b: wgpu::Buffer) {
        wrapper.into_buffer()
    }
}

impl vstd::std_specs::convert::FromSpecImpl<PreprocessorInvertSelectionBuffer> for wgpu::Buffer {
    open spec fn obeys_from_spec() -> bool {
        true
    }

    open spec fn from_spec(wrapper: PreprocessorInvertSelectionBuffer) -> wgpu::Buffer {
        wrapper.inner()
    }
}

impl TryFrom<wgpu::Buffer> for PreprocessorInvertSelectionBuffer {
    type Error = FixedSizeBufferWrapperError;

    fn try_from(buffer: wgpu::Buffer) -> (r: Result<PreprocessorInvertSelectionBuffer, FixedSizeBufferWrapperError>)
        ensures
            r matches Ok(w) ==> w.inner() == buffer,
            r is Ok <==> buffer_byte_size(buffer) == U32_SIZE,
            r matches Err(e) ==> e == (FixedSizeBufferWrapperError::BufferSizeMismatched {
                buffer_size: buffer_byte_size(buffer),
                expected_size: U32_SIZE,
            }),
    {
        PreprocessorInvertSelectionBuffer::try_from(buffer)
    }
}

impl vstd::std_specs::convert::TryFromSpecImpl<wgpu::Buffer> for PreprocessorInvertSelectionBuffer {
    open spec fn obeys_try_from_spec() -> bool {
        true
    }

    closed spec fn try_from_spec(buffer: wgpu::Buffer) -> Result<PreprocessorInvertSelectionBuffer, FixedSizeBufferWrapperError> {
        if buffer_byte_size(buffer) == U32_SIZE {
            Ok(PreprocessorInvertSelectionBuffer(buffer))
        } else {
            Err(FixedSizeBufferWrapperError::BufferSizeMismatched {
                buffer_size: buffer_byte_size(buffer),
                expected_size: U32_SIZE,
            })
        }
    }
}

/// The storage buffer of the sorted Gaussian indices; any buffer can serve.
#[derive(Debug, Clone)]
pub struct IndirectIndicesBuffer(wgpu::Buffer);

impl IndirectIndicesBuffer {
    /// The wrapped buffer.
    pub closed spec fn inner(&self) -> wgpu::Buffer {
        self.0
    }

    /// Wrap `buffer`.
    pub fn from_buffer(buffer: wgpu::Buffer) -> (w: Self)
        ensures
            w.inner() == buffer,
    {
        IndirectIndicesBuffer(buffer)
    }

    /// The wrapped buffer.
    pub fn buffer(&self) -> (b: &wgpu::Buffer)
        ensures
            *b == self.inner(),
    {
        &self.0
    }

    /// Unwrap the buffer.
    pub fn into_buffer(self) -> (b: wgpu::Buffer)
        ensures
            b == self.inner(),
    {
        self.0
    }
}

impl From<wgpu::Buffer> for IndirectIndicesBuffer {
    fn from(buffer: wgpu::Buffer) -> (w: IndirectIndicesBuffer) {
        IndirectIndicesBuffer::from_buffer(buffer)
    }
}

impl vstd::std_specs::convert::FromSpecImpl<wgpu::Buffer> for IndirectIndicesBuffer {
    open spec fn obeys_from_spec() -> bool {
        true
    }

    closed spec fn from_spec(buffer: wgpu::Buffer) -> IndirectIndicesBuffer {
        IndirectIndicesBuffer(buffer)
    }
}

impl From<IndirectIndicesBuffer> for wgpu::Buffer {
    fn from(wrapper: IndirectIndicesBuffer) -> (b: wgpu::Buffer) {
        wrapper.into_buffer()
    }
}

impl vstd::std_specs::convert::FromSpecImpl<IndirectIndicesBuffer> for wgpu::Buffer {
    open spec fn obeys_from_spec() -> bool {
        true
    }

    open spec fn from_spec(wrapper: IndirectIndicesBuffer) -> wgpu::Buffer {
        wrapper.inner()
    }
}

} // verus!
