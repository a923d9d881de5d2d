//! Font-atlas texture upload.
//!
//! The UI library's font atlas is an RGBA8 bitmap.  Uploading it to a
//! GPU-resident texture goes through a linear staging buffer whose row
//! pitch is rounded up to the graphics API's texture-data pitch alignment
//! (256 bytes), so each atlas row is copied to the start of its padded
//! row and the tail of the row is padding the copy ignores.  Building the
//! padded bytes is plain bookkeeping and is verified here, together with
//! the plan for the one-shot copy — texture description, placed
//! footprint, and the copy-destination → pixel-shader-resource
//! transition.  The host performs the resource creation, the copy command
//! list and the fence wait.

use vstd::prelude::*;

verus! {

use crate::ops::BufferDesc;
use crate::ops::HeapType;
use crate::ops::ResourceState;

/// Required alignment, in bytes, of each texture-data row in an upload buffer.
pub const TEXTURE_PITCH_ALIGNMENT: usize = 256;

/// Smallest multiple of the pitch alignment that is at least `n`.
pub open spec fn spec_aligned_pitch(n: int) -> int {
    if n % 256 == 0 {
        n
    } else {
        n + 256 - n % 256
    }
}

pub proof fn lemma_aligned_pitch_bounds(n: int)
    requires
        n >= 0,
    ensures
        spec_aligned_pitch(n) % 256 == 0,
        n <= spec_aligned_pitch(n) < n + 256,
{
}

/// Rounds a tightly packed row size up to the upload-pitch alignment.
pub fn aligned_pitch(row_bytes: usize) -> (r: usize)
    requires
        row_bytes + 255 <= usize::MAX,
    ensures
        r == spec_aligned_pitch(row_bytes as int),
{
    let rem: usize = row_bytes % TEXTURE_PITCH_ALIGNMENT;
    if rem == 0 {
        row_bytes
    } else {
        row_bytes + (TEXTURE_PITCH_ALIGNMENT - rem)
    }
}

/// The RGBA8 font atlas bitmap, as plain values.
pub struct FontAtlas {
    pub width: u32,
    pub height: u32,
    /// `width * height * 4` bytes, rows tightly packed.
    pub data: Vec<u8>,
}

impl FontAtlas {
    pub open spec fn wf(self) -> bool {
        self.data@.len() == self.width * self.height * 4
    }
}

/// A row of `n` zero padding bytes.
pub open spec fn spec_zero_row(n: int) -> Seq<u8> {
    Seq::new(n as nat, |i: int| 0u8)
}

/// The first `rows` atlas rows laid out with the padded pitch: each row's
/// `row_bytes` data bytes, then `pitch - row_bytes` zero bytes.
pub open spec fn spec_padded_rows(data: Seq<u8>, row_bytes: int, pitch: int, rows: int) -> Seq<u8>
    decreases rows,
{
    if rows <= 0 {
        Seq::empty()
    } else {
        spec_padded_rows(data, row_bytes, pitch, rows - 1) + data.subrange(
            (rows - 1) * row_bytes,
            rows * row_bytes,
        ) + spec_zero_row(pitch - row_bytes)
    }
}

/// The first `rows` rows read back from a padded buffer: `row_bytes`
/// bytes from the start of each pitch-sized row, padding ignored.
pub open spec fn spec_extracted_rows(
    padded: Seq<u8>,
    row_bytes: int,
    pitch: int,
    rows: int,
) -> Seq<u8>
    decreases rows,
{
    if rows <= 0 {
        Seq::empty()
    } else {
        spec_extracted_rows(padded, row_bytes, pitch, rows - 1) + padded.subrange(
            (rows - 1) * pitch,
            (rows - 1) * pitch + row_bytes,
        )
    }
}

/// A padded buffer of `rows` rows holds `rows * pitch` bytes.
pub proof fn lemma_padded_rows_len(data: Seq<u8>, row_bytes: int, pitch: int, rows: int)
    requires
        0 <= row_bytes <= pitch,
        rows >= 0,
        rows * row_bytes <= data.len(),
    ensures
        spec_padded_rows(data, row_bytes, pitch, rows).len() == rows * pitch,
    decreases rows,
{
    if rows == 0 {
        assert(rows * pitch == 0) by (nonlinear_arith)
            requires
                rows == 0,
        ;
    } else {
        assert((rows - 1) * row_bytes >= 0 && (rows - 1) * row_bytes + row_bytes == rows
            * row_bytes && (rows - 1) * pitch + pitch == rows * pitch) by (nonlinear_arith)
            requires
                rows >= 1,
                row_bytes >= 0,
        ;
        lemma_padded_rows_len(data, row_bytes, pitch, rows - 1);
        assert(data.subrange((rows - 1) * row_bytes, rows * row_bytes).len() == row_bytes);
        assert(spec_zero_row(pitch - row_bytes).len() == pitch - row_bytes);
        assert(spec_padded_rows(data, row_bytes, pitch, rows).len() == (rows - 1) * pitch
            + row_bytes + (pitch - row_bytes));
    }
}

/// Row `k` of the padded buffer is row `k` of the atlas data.
pub proof fn lemma_padded_row_window(data: Seq<u8>, row_bytes: int, pitch: int, k: int, rows: int)
    requires
        0 <= row_bytes <= pitch,
        0 <= k < rows,
        rows * row_bytes <= data.len(),
    ensures
        spec_padded_rows(data, row_bytes, pitch, rows).subrange(k * pitch, k * pitch + row_bytes)
            == data.subrange(k * row_bytes, k * row_bytes + row_bytes),
    decreases rows,
{
    assert((rows - 1) * row_bytes >= 0 && (rows - 1) * row_bytes + row_bytes == rows * row_bytes
        && k * row_bytes + row_bytes <= rows * row_bytes && 0 <= k * pitch && k * pitch + pitch
        <= rows * pitch && (rows - 1) * pitch + pitch == rows * pitch && 0 <= k * row_bytes && (
    rows - 1) * row_bytes <= data.len()) by (nonlinear_arith)
        requires
            0 <= row_bytes <= pitch,
            0 <= k < rows,
            rows * row_bytes <= data.len(),
    ;
    lemma_padded_rows_len(data, row_bytes, pitch, rows);
    lemma_padded_rows_len(data, row_bytes, pitch, rows - 1);
    if k == rows - 1 {
        assert(spec_padded_rows(data, row_bytes, pitch, rows).subrange(
            k * pitch,
            k * pitch + row_bytes,
        ) =~= data.subrange(k * row_bytes, k * row_bytes + row_bytes));
    } else {
        assert(k * pitch + row_bytes <= (rows - 1) * pitch) by (nonlinear_arith)
            requires
                0 <= k < rows - 1,
                0 <= row_bytes <= pitch,
        ;
        lemma_padded_row_window(data, row_bytes, pitch, k, rows - 1);
        assert(spec_padded_rows(data, row_bytes, pitch, rows).subrange(
            k * pitch,
            k * pitch + row_bytes,
        ) =~= spec_padded_rows(data, row_bytes, pitch, rows - 1).subrange(
            k * pitch,
            k * pitch + row_bytes,
        ));
    }
}

/// Reading the first `rows` rows back from the full padded buffer yields
/// exactly the first `rows` atlas rows.
proof fn lemma_extract_upto(data: Seq<u8>, row_bytes: int, pitch: int, rows: int, total_rows: int)
    requires
        0 <= row_bytes <= pitch,
        0 <= rows <= total_rows,
        total_rows * row_bytes <= data.len(),
    ensures
        spec_extracted_rows(
            spec_padded_rows(data, row_bytes, pitch, total_rows),
            row_bytes,
            pitch,
            rows,
        ) == data.subrange(0, rows * row_bytes),
    decreases rows,
{
    let padded = spec_padded_rows(data, row_bytes, pitch, total_rows);
    if rows == 0 {
        assert(rows * row_bytes == 0) by (nonlinear_arith)
            requires
                rows == 0,
        ;
        assert(data.subrange(0, 0) =~= Seq::<u8>::empty());
    } else {
        assert(rows * row_bytes >= 0 && (rows - 1) * row_bytes + row_bytes == rows * row_bytes
            && rows * row_bytes <= total_rows * row_bytes && (rows - 1) * pitch >= 0 && (rows - 1)
            * pitch + pitch <= total_rows * pitch) by (nonlinear_arith)
            requires
                1 <= rows <= total_rows,
                0 <= row_bytes <= pitch,
        ;
        lemma_padded_rows_len(data, row_bytes, pitch, total_rows);
        lemma_extract_upto(data, row_bytes, pitch, rows - 1, total_rows);
        lemma_padded_row_window(data, row_bytes, pitch, rows - 1, total_rows);
        assert(spec_extracted_rows(padded, row_bytes, pitch, rows) == spec_extracted_rows(
            padded,
            row_bytes,
            pitch,
            rows - 1,
        ) + padded.subrange((rows - 1) * pitch, (rows - 1) * pitch + row_bytes));
        assert(data.subrange(0, (rows - 1) * row_bytes) + data.subrange(
            (rows - 1) * row_bytes,
            (rows - 1) * row_bytes + row_bytes,
        ) =~= data.subrange(0, rows * row_bytes));
    }
}

/// Round trip: atlas bytes copied into the padded upload buffer and read
/// back row by row equal the original atlas bytes at every pixel,
/// including when `row_bytes` is smaller than the pitch.
pub proof fn lemma_padded_round_trip(data: Seq<u8>, row_bytes: int, pitch: int, rows: int)
    requires
        0 <= row_bytes <= pitch,
        rows >= 0,
        data.len() == rows * row_bytes,
    ensures
        spec_extracted_rows(
            spec_padded_rows(data, row_bytes, pitch, rows),
            row_bytes,
            pitch,
            rows,
        ) == data,
{
    lemma_extract_upto(data, row_bytes, pitch, rows, rows);
    assert(data.subrange(0, rows * row_bytes) =~= data);
}

/// The padded upload image of a font atlas.
pub struct FontUpload {
    /// Aligned row pitch, in bytes.
    pub pitch: usize,
    /// `height * pitch` bytes: the atlas rows at the padded pitch.
    pub bytes: Vec<u8>,
}

/// Do the padded upload sizes of this atlas fit in byte counts the
/// machine can address?
pub open spec fn spec_atlas_fits(atlas: FontAtlas) -> bool {
    &&& atlas.width * 4 + 255 <= usize::MAX
    &&& atlas.height * spec_aligned_pitch(atlas.width * 4) <= usize::MAX
}

/// Copy the atlas bytes row by row into a fresh padded upload buffer.
/// Returns `None` exactly when the padded buffer would not fit in
/// addressable memory.
pub fn build_font_upload(atlas: &FontAtlas) -> (r: Option<FontUpload>)
    requires
        atlas.wf(),
    ensures
        r is Some <==> spec_atlas_fits(*atlas),
        r matches Some(up) ==> {
            &&& up.pitch == spec_aligned_pitch(atlas.width * 4)
            &&& up.bytes@ == spec_padded_rows(
                atlas.data@,
                atlas.width * 4,
                up.pitch as int,
                atlas.height as int,
            )
            &&& up.bytes@.len() == atlas.height * up.pitch
        },
{
    let width: usize = atlas.width as usize;
    let height: usize = atlas.height as usize;
    if width > (usize::MAX - 255) / 4 {
        proof {
            assert(4 * width > usize::MAX - 255) by (nonlinear_arith)
                requires
                    width > (usize::MAX - 255) as int / 4,
            ;
        }
        return None;
    }
    proof {
        assert(4 * width <= usize::MAX - 255) by (nonlinear_arith)
            requires
                width <= (usize::MAX - 255) as int / 4,
        ;
    }
    let row_bytes: usize = width * 4;
    let pitch: usize = aligned_pitch(row_bytes);
    if height > 0 && pitch > usize::MAX / height {
        proof {
            assert(height * pitch > usize::MAX) by (nonlinear_arith)
                requires
                    height > 0,
                    pitch > usize::MAX as int / height as int,
            ;
        }
        return None;
    }
    proof {
        if height > 0 {
            assert(height * pitch <= usize::MAX) by (nonlinear_arith)
                requires
                    height > 0,
                    pitch <= usize::MAX as int / height as int,
            ;
        }
        lemma_aligned_pitch_bounds(row_bytes as int);
        assert(atlas.height * (atlas.width * 4) == atlas.width * atlas.height * 4)
            by (nonlinear_arith);
    }

    let data_len: usize = atlas.data.len();
    let mut bytes: Vec<u8> = Vec::new();
    let mut y: usize = 0;
    while y < height
        invariant
            atlas.wf(),
            width == atlas.width,
            height == atlas.height,
            data_len == atlas.data@.len(),
            data_len == height * row_bytes,
            row_bytes == width * 4,
            row_bytes <= pitch,
            height * pitch <= usize::MAX,
            y <= height,
            bytes@ == spec_padded_rows(atlas.data@, row_bytes as int, pitch as int, y as int),
        decreases height - y,
    {
        proof {
            assert(y * row_bytes + row_bytes == (y + 1) * row_bytes && (y + 1) * row_bytes
                <= height * row_bytes && height * row_bytes <= height * pitch && y * pitch + pitch
                == (y + 1) * pitch && (y + 1) * pitch <= height * pitch && 0 <= y * row_bytes)
                by (nonlinear_arith)
                requires
                    0 <= y < height,
                    0 <= row_bytes <= pitch,
            ;
        }
        let row_start: usize = y * row_bytes;
        let ghost row_prefix = bytes@;
        proof {
            assert(bytes@ =~= row_prefix + atlas.data@.subrange(
                row_start as int,
                row_start as int,
            ));
        }
        let mut x: usize = 0;
        while x < row_bytes
            invariant
                atlas.wf(),
                x <= row_bytes,
                row_start + row_bytes <= atlas.data@.len(),
                atlas.data@.len() <= usize::MAX,
                bytes@ == row_prefix + atlas.data@.subrange(
                    row_start as int,
                    row_start as int + x as int,
                ),
            decreases row_bytes - x,
        {
            bytes.push(atlas.data[row_start + x]);
            proof {
                assert(atlas.data@.subrange(row_start as int, row_start as int + x + 1)
                    =~= atlas.data@.subrange(row_start as int, row_start as int + x as int).push(
                    atlas.data@[row_start as int + x as int],
                ));
            }
            x = x + 1;
        }
        let ghost row_done = bytes@;
        proof {
            assert(bytes@ =~= row_done + spec_zero_row(0));
        }
        let mut pad: usize = 0;
        let pad_len: usize = pitch - row_bytes;
        while pad < pad_len
            invariant
                pad <= pad_len,
                bytes@ == row_done + spec_zero_row(pad as int),
            decreases pad_len - pad,
        {
            bytes.push(0u8);
            proof {
                assert(spec_zero_row(pad + 1) =~= spec_zero_row(pad as int).push(0u8));
            }
            pad = pad + 1;
        }
        proof {
            assert(bytes@ =~= spec_padded_rows(
                atlas.data@,
                row_bytes as int,
                pitch as int,
                y as int + 1,
            ));
        }
        y = y + 1;
    }
    proof {
        lemma_padded_rows_len(atlas.data@, row_bytes as int, pitch as int, height as int);
    }
    Some(FontUpload { pitch, bytes })
}

/// Read the atlas rows back out of a padded buffer, padding ignored.
pub fn extract_atlas_bytes(bytes: &Vec<u8>, row_bytes: usize, pitch: usize, rows: usize) -> (r:
    Vec<u8>)
    requires
        row_bytes <= pitch,
        rows * pitch <= bytes@.len(),
    ensures
        r@ == spec_extracted_rows(bytes@, row_bytes as int, pitch as int, rows as int),
{
    let total_len: usize = bytes.len();
    let mut out: Vec<u8> = Vec::new();
    let mut y: usize = 0;
    while y < rows
        invariant
            row_bytes <= pitch,
            total_len == bytes@.len(),
            rows * pitch <= total_len,
            y <= rows,
            out@ == spec_extracted_rows(bytes@, row_bytes as int, pitch as int, y as int),
        decreases rows - y,
    {
        proof {
            assert(y * pitch + pitch == (y + 1) * pitch && (y + 1) * pitch <= rows * pitch && 0
                <= y * pitch) by (nonlinear_arith)
                requires
                    0 <= y < rows,
                    pitch >= 0,
            ;
        }
        let row_start: usize = y * pitch;
        let ghost prefix = out@;
        proof {
            assert(out@ =~= prefix + bytes@.subrange(row_start as int, row_start as int));
        }
        let mut x: usize = 0;
        while x < row_bytes
            invariant
                x <= row_bytes,
                row_bytes <= pitch,
                total_len == bytes@.len(),
                row_start + pitch <= total_len,
                out@ == prefix + bytes@.subrange(row_start as int, row_start as int + x as int),
            decreases row_bytes - x,
        {
            out.push(bytes[row_start + x]);
            proof {
                assert(bytes@.subrange(row_start as int, row_start as int + x + 1)
                    =~= bytes@.subrange(row_start as int, row_start as int + x as int).push(
                    bytes@[row_start as int + x as int],
                ));
            }
            x = x + 1;
        }
        y = y + 1;
    }
    out
}

/// Pixel format of the font texture.
#[derive(Clone, Copy, PartialEq, Eq, Structural, Debug)]
pub enum TextureFormat {
    Rgba8Unorm,
}

/// Description of the GPU-resident font texture to create.
#[derive(Clone, Copy, PartialEq, Eq, Structural, Debug)]
pub struct TextureDesc {
    pub width: u32,
    pub height: u32,
    pub format: TextureFormat,
    pub mip_levels: u32,
    pub sample_count: u32,
    pub heap: HeapType,
    pub initial_state: ResourceState,
}

/// Placed footprint of the upload-buffer side of the texture copy.
#[derive(Clone, Copy, PartialEq, Eq, Structural, Debug)]
pub struct CopyFootprint {
    pub format: TextureFormat,
    pub width: u32,
    pub height: u32,
    pub depth: u32,
    pub row_pitch: usize,
}

/// State transition of the texture after the copy.
#[derive(Clone, Copy, PartialEq, Eq, Structural, Debug)]
pub struct TextureBarrier {
    pub state_before: ResourceState,
    pub state_after: ResourceState,
}

/// Shader-resource view published for the texture.
#[derive(Clone, Copy, PartialEq, Eq, Structural, Debug)]
pub struct ShaderResourceViewDesc {
    pub format: TextureFormat,
    pub mip_levels: u32,
}

/// Everything the host performs for the one-shot font upload, in order:
/// create the texture and the upload buffer, fill the buffer with the
/// padded bytes, copy with the placed footprint, transition the texture,
/// wait on a fence, then create the shader view.
#[derive(Clone, Copy, PartialEq, Eq, Structural, Debug)]
pub struct FontTexturePlan {
    pub texture: TextureDesc,
    pub upload_buffer: BufferDesc,
    pub footprint: CopyFootprint,
    pub barrier: TextureBarrier,
    pub srv: ShaderResourceViewDesc,
}

/// The upload plan for an atlas with this size and padded pitch.
pub open spec fn spec_font_texture_plan(
    width: u32,
    height: u32,
    pitch: usize,
    upload_size: usize,
) -> FontTexturePlan {
    FontTexturePlan {
        texture: TextureDesc {
            width,
            height,
            format: TextureFormat::Rgba8Unorm,
            mip_levels: 1,
            sample_count: 1,
            heap: HeapType::DefaultHeap,
            initial_state: ResourceState::CopyDest,
        },
        upload_buffer: BufferDesc {
            byte_size: upload_size,
            heap: HeapType::UploadHeap,
            initial_state: ResourceState::GenericRead,
        },
        footprint: CopyFootprint {
            format: TextureFormat::Rgba8Unorm,
            width,
            height,
            depth: 1,
            row_pitch: pitch,
        },
        barrier: TextureBarrier {
            state_before: ResourceState::CopyDest,
            state_after: ResourceState::PixelShaderResource,
        },
        srv: ShaderResourceViewDesc { format: TextureFormat::Rgba8Unorm, mip_levels: 1 },
    }
}

/// Build the upload plan for this atlas and its padded image.
pub fn font_texture_plan(atlas: &FontAtlas, upload: &FontUpload) -> (plan: FontTexturePlan)
    ensures
        plan == spec_font_texture_plan(
            atlas.width,
            atlas.height,
            upload.pitch,
            upload.bytes@.len() as usize,
        ),
{
    FontTexturePlan {
        texture: TextureDesc {
            width: atlas.width,
            height: atlas.height,
            format: TextureFormat::Rgba8Unorm,
            mip_levels: 1,
            sample_count: 1,
            heap: HeapType::DefaultHeap,
            initial_state: ResourceState::CopyDest,
        },
        upload_buffer: BufferDesc {
            byte_size: upload.bytes.len(),
            heap: HeapType::UploadHeap,
            initial_state: ResourceState::GenericRead,
        },
        footprint: CopyFootprint {
            format: TextureFormat::Rgba8Unorm,
            width: atlas.width,
            height: atlas.height,
            depth: 1,
            row_pitch: upload.pitch,
        },
        barrier: TextureBarrier {
            state_before: ResourceState::CopyDest,
            state_after: ResourceState::PixelShaderResource,
        },
        srv: ShaderResourceViewDesc { format: TextureFormat::Rgba8Unorm, mip_levels: 1 },
    }
}

} // verus!
