//! Texture construction: decoding image bytes and planning the staged upload
//! with its two layout transitions.

use vstd::prelude::*;

use crate::gpu_alloc::{Allocator, BufferCreateInfo, Image, USAGE_TRANSFER_SRC};

verus! {

/// Texture pixel format `R8G8B8A8_SRGB`.
pub const FORMAT_R8G8B8A8_SRGB: u32 = 43;

/// The image layouts the engine moves its images through.
#[derive(Debug, Clone, Copy, PartialEq, Eq, Structural)]
pub enum ImageLayout {
    Undefined,
    TransferDstOptimal,
    ShaderReadOnlyOptimal,
    ColorAttachmentOptimal,
    DepthAttachmentOptimal,
    PresentSrc,
}

/// One image layout transition the driver must record.
#[derive(Debug, Clone, Copy, PartialEq, Eq, Structural)]
pub struct LayoutTransition {
    pub from: ImageLayout,
    pub to: ImageLayout,
}

/// Why a resource could not be loaded.
#[derive(Debug, Clone, Copy, PartialEq, Eq, Structural)]
pub enum ResourceError {
    /// The image bytes are not a decodable PNG.
    DecodeFailed,
}

/// What a PNG byte stream decodes to: width, height and the output pixel
/// bytes; `None` when the stream is not decodable. The result is a function
/// of the bytes alone.
pub uninterp spec fn png_decode(bytes: Seq<u8>) -> Option<(u32, u32, Seq<u8>)>;

/// Relies on `png::Decoder::read_info` and `png::Reader::next_frame`:
/// decodes a PNG byte stream into its size and output pixel bytes, a
/// function of the bytes alone.
#[verifier::external_body]
fn decode_png(bytes: &Vec<u8>) -> (r: Option<(u32, u32, Vec<u8>)>)
    ensures
        match r {
            Some((w, h, p)) => png_decode(bytes@) == Some((w, h, p@)),
            None => png_decode(bytes@) is None,
        },
{
    let decoder = png::Decoder::new(std::io::Cursor::new(bytes.as_slice()));
    let mut reader = decoder.read_info().ok()?;
    let size = reader.output_buffer_size()?;
    let mut buf = vec![0u8; size];
    let info = reader.next_frame(&mut buf).ok()?;
    Some((info.width, info.height, buf))
}

/// What the driver must do to upload a texture: stage the pixel bytes, move
/// the image to the transfer layout, copy, and move it to the shader-read
/// layout.
#[derive(Debug, Clone, Copy, PartialEq, Eq, Structural)]
pub struct TextureUploadPlan {
    /// Byte size of the staging buffer: the decoded pixel bytes.
    pub staging_size: u64,
    pub width: u32,
    pub height: u32,
    pub format: u32,
    /// Transition recorded before the copy.
    pub to_transfer: LayoutTransition,
    /// Transition recorded after the copy.
    pub to_shader: LayoutTransition,
}

/// A GPU texture: its image and its size.
#[derive(Debug, Clone, Copy, PartialEq, Eq, Structural)]
pub struct Texture {
    pub image: Image,
    pub width: u32,
    pub height: u32,
}

impl Texture {
    /// The image matches the texture's size and format.
    pub open spec fn wf(&self) -> bool {
        &&& self.image.width == self.width
        &&& self.image.height == self.height
        &&& self.image.format == FORMAT_R8G8B8A8_SRGB
    }

    /// Builds a texture from PNG bytes: decodes them, issues the image from
    /// the allocator and plans the staged upload. The staging buffer lives
    /// only for the upload, so the texture leaves exactly one allocation
    /// outstanding. Undecodable bytes are rejected and nothing is allocated.
    pub fn new(png_bytes: &Vec<u8>, allocator: &mut Allocator) -> (r: Result<
        (Texture, TextureUploadPlan),
        ResourceError,
    >)
        requires
            old(allocator).can_allocate(2),
        ensures
            match r {
                Ok((t, plan)) => {
                    &&& png_decode(png_bytes@) is Some
                    &&& {
                        let (w, h, pixels) = png_decode(png_bytes@).unwrap();
                        &&& t.wf()
                        &&& t.width == w
                        &&& t.height == h
                        &&& plan.staging_size == pixels.len()
                        &&& plan.width == w
                        &&& plan.height == h
                        &&& plan.format == FORMAT_R8G8B8A8_SRGB
                        &&& plan.to_transfer == (LayoutTransition {
                            from: ImageLayout::Undefined,
                            to: ImageLayout::TransferDstOptimal,
                        })
                        &&& plan.to_shader == (LayoutTransition {
                            from: ImageLayout::TransferDstOptimal,
                            to: ImageLayout::ShaderReadOnlyOptimal,
                        })
                        &&& final(allocator).outstanding == old(allocator).outstanding + 1
                        &&& final(allocator).next_id == old(allocator).next_id + 2
                    }
                },
                Err(e) => {
                    &&& e == ResourceError::DecodeFailed
                    &&& png_decode(png_bytes@) is None
                    &&& *final(allocator) == *old(allocator)
                },
            },
    {
        let decoded = decode_png(png_bytes);
        match decoded {
            None => Err(ResourceError::DecodeFailed),
            Some((width, height, pixels)) => {
                let staging = allocator.create_buffer(
                    BufferCreateInfo {
                        size: pixels.len() as u64,
                        usage: USAGE_TRANSFER_SRC,
                        cpu_visible: true,
                    },
                );
                let image = allocator.create_image(width, height, FORMAT_R8G8B8A8_SRGB);
                let plan = TextureUploadPlan {
                    staging_size: pixels.len() as u64,
                    width,
                    height,
                    format: FORMAT_R8G8B8A8_SRGB,
                    to_transfer: LayoutTransition {
                        from: ImageLayout::Undefined,
                        to: ImageLayout::TransferDstOptimal,
                    },
                    to_shader: LayoutTransition {
                        from: ImageLayout::TransferDstOptimal,
                        to: ImageLayout::ShaderReadOnlyOptimal,
                    },
                };
                allocator.destroy_buffer(staging);
                Ok((Texture { image, width, height }, plan))
            },
        }
    }
}

} // verus!
