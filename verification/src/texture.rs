//! A texture resource: the GPU image together with the full view and the
//! sampler the pipeline binds, plus its recorded dimensions. There are two
//! construction paths: from decoded color pixels, and as an empty depth
//! attachment sized to the presentation surface. A texture is never mutated;
//! the depth attachment is recreated whenever the surface resizes.

use vstd::prelude::*;

use crate::gpu;

verus! {

/// An owned GPU image with its view and sampler. `width` and `height`
/// record the dimensions it was created with; the handles are opaque.
pub struct TextureBundle {
    pub texture: wgpu::Texture,
    pub view: wgpu::TextureView,
    pub sampler: wgpu::Sampler,
    pub width: u32,
    pub height: u32,
}

impl TextureBundle {
    /// Builds a color texture from decoded RGBA pixel bytes (four bytes per
    /// pixel, rows tightly packed) and uploads the pixels into it, with a
    /// default sampler and a full view.
    pub fn from_image_bytes(
        device: &wgpu::Device,
        queue: &wgpu::Queue,
        width: u32,
        height: u32,
        pixels: &[u8],
    ) -> (t: TextureBundle)
        requires
            width > 0,
            height > 0,
            pixels@.len() == 4 * width * height,
            4 * width <= u32::MAX,
        ensures
            t.width == width,
            t.height == height,
    {
        let texture = gpu::create_color_texture(device, width, height);
        gpu::write_rgba_texture(queue, &texture, width, height, pixels);
        let view = gpu::create_texture_view(&texture);
        let sampler = gpu::create_default_sampler(device);
        TextureBundle { texture, view, sampler, width, height }
    }

    /// Allocates an empty depth attachment of the given dimensions, in the
    /// fixed 32-bit float depth format. Must be rebuilt whenever the
    /// presentation surface resizes, so its dimensions never go stale.
    pub fn depth_attachment(device: &wgpu::Device, width: u32, height: u32) -> (t: TextureBundle)
        requires
            width > 0,
            height > 0,
        ensures
            t.width == width,
            t.height == height,
    {
        let texture = gpu::create_depth_texture_raw(device, width, height);
        let view = gpu::create_texture_view(&texture);
        let sampler = gpu::create_default_sampler(device);
        TextureBundle { texture, view, sampler, width, height }
    }
}

} // verus!
