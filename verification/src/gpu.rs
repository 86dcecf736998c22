//! The boundary to the GPU library: declarations of the handle types the
//! renderer owns, and one small trusted wrapper around each GPU call the
//! library makes. Everything the library proves about frames, resizing and
//! resources is stated over its own plain-value fields; the handles
//! themselves are opaque.

use vstd::prelude::*;

use wgpu::util::DeviceExt;

verus! {

#[verifier::external_type_specification]
#[verifier::external_body]
pub struct ExDevice(wgpu::Device);

#[verifier::external_type_specification]
#[verifier::external_body]
pub struct ExQueue(wgpu::Queue);

#[verifier::external_type_specification]
#[verifier::external_body]
pub struct ExSurface<'window>(wgpu::Surface<'window>);

#[verifier::external_type_specification]
#[verifier::external_body]
pub struct ExBuffer(wgpu::Buffer);

#[verifier::external_type_specification]
#[verifier::external_body]
pub struct ExTexture(wgpu::Texture);

#[verifier::external_type_specification]
#[verifier::external_body]
pub struct ExTextureView(wgpu::TextureView);

#[verifier::external_type_specification]
#[verifier::external_body]
pub struct ExSampler(wgpu::Sampler);

#[verifier::external_type_specification]
#[verifier::external_body]
pub struct ExBindGroup(wgpu::BindGroup);

#[verifier::external_type_specification]
#[verifier::external_body]
pub struct ExBindGroupLayout(wgpu::BindGroupLayout);

#[verifier::external_type_specification]
#[verifier::external_body]
pub struct ExRenderPipeline(wgpu::RenderPipeline);

#[verifier::external_type_specification]
#[verifier::external_body]
pub struct ExCommandBuffer(wgpu::CommandBuffer);

#[verifier::external_type_specification]
#[verifier::external_body]
pub struct ExSurfaceTexture(wgpu::SurfaceTexture);

/// What a GPU buffer is created for; decides the usage flags the buffer is
/// created with (instance data shares the vertex kind).
pub enum BufferKind {
    Vertex,
    Index,
    Uniform,
}

/// Why the presentation surface yielded no frame this tick. The variants
/// mirror the acquisition outcomes of the GPU library's surface, one for
/// one.
#[derive(Clone, Copy, PartialEq, Eq, Structural, Debug)]
pub enum FrameError {
    /// Acquisition timed out; skip this frame and try again later.
    Timeout,
    /// The window is occluded; skip this frame.
    Occluded,
    /// The surface no longer matches its configuration; reconfigure.
    Outdated,
    /// The surface was lost; reconfigure at the current size.
    Lost,
    /// A validation failure was reported; skip this frame.
    Validation,
}

/// Relies on wgpu::Surface::configure: (re)configures presentation at the
/// given size, with the fixed format, render-attachment usage and mailbox
/// present mode this renderer always uses. The call panics on a zero
/// dimension, so those are excluded; it also panics while a texture of this
/// surface is still alive (the renderer never holds one across a
/// reconfiguration), and on a window system that cannot offer the fixed
/// format or present mode, which no precondition can rule out.
#[verifier::external_body]
pub(crate) fn configure_surface(
    surface: &wgpu::Surface<'static>,
    device: &wgpu::Device,
    width: u32,
    height: u32,
)
    requires
        width > 0,
        height > 0,
{
    surface.configure(
        device,
        &wgpu::SurfaceConfiguration {
            usage: wgpu::TextureUsages::RENDER_ATTACHMENT,
            format: wgpu::TextureFormat::Bgra8UnormSrgb,
            width,
            height,
            present_mode: wgpu::PresentMode::Mailbox,
            desired_maximum_frame_latency: 2,
            alpha_mode: wgpu::CompositeAlphaMode::Auto,
            view_formats: Vec::new(),
        },
    );
}

/// Relies on wgpu::Surface::get_current_texture: yields the next
/// presentable frame, or says why there is none; each failure outcome maps
/// to the `FrameError` variant of the same name, and a suboptimal frame is
/// still a frame. Which outcome comes back depends on the window system, so
/// nothing is promised about it. The call panics on a surface that was
/// never configured; the renderer configures at construction, before any
/// acquisition.
#[verifier::external_body]
pub(crate) fn acquire_frame(surface: &wgpu::Surface<'static>) -> (r: Result<
    wgpu::SurfaceTexture,
    FrameError,
>)
{
    match surface.get_current_texture() {
        wgpu::CurrentSurfaceTexture::Success(t) => Ok(t),
        wgpu::CurrentSurfaceTexture::Suboptimal(t) => Ok(t),
        wgpu::CurrentSurfaceTexture::Timeout => Err(FrameError::Timeout),
        wgpu::CurrentSurfaceTexture::Occluded => Err(FrameError::Occluded),
        wgpu::CurrentSurfaceTexture::Outdated => Err(FrameError::Outdated),
        wgpu::CurrentSurfaceTexture::Lost => Err(FrameError::Lost),
        wgpu::CurrentSurfaceTexture::Validation => Err(FrameError::Validation),
    }
}

/// Relies on wgpu::SurfaceTexture::present: schedules the frame for
/// presentation, consuming it.
#[verifier::external_body]
pub(crate) fn present_frame(frame: wgpu::SurfaceTexture) {
    frame.present();
}

/// Relies on wgpu::Queue::submit: hands one finished command buffer to the
/// queue for execution.
#[verifier::external_body]
pub(crate) fn submit_commands(queue: &wgpu::Queue, commands: wgpu::CommandBuffer) {
    queue.submit(Some(commands));
}

/// Relies on wgpu::Device::create_texture: allocates an uninitialized 2D
/// color texture of the given size, in the fixed linear RGBA format, usable
/// as a copy target and for sampling. The call rejects a zero dimension,
/// so those are excluded; a size beyond the device's texture limit is also
/// rejected, but that limit lives in the opaque device and cannot be
/// stated.
#[verifier::external_body]
pub(crate) fn create_color_texture(device: &wgpu::Device, width: u32, height: u32) -> (t:
    wgpu::Texture)
    requires
        width > 0,
        height > 0,
{
    device.create_texture(
        &wgpu::TextureDescriptor {
            label: None,
            size: wgpu::Extent3d { width, height, depth_or_array_layers: 1 },
            mip_level_count: 1,
            sample_count: 1,
            dimension: wgpu::TextureDimension::D2,
            format: wgpu::TextureFormat::Rgba8UnormSrgb,
            usage: wgpu::TextureUsages::TEXTURE_BINDING | wgpu::TextureUsages::COPY_DST,
            view_formats: &[],
        },
    )
}

/// Relies on wgpu::Device::create_texture: allocates a 2D depth texture of
/// the given size, in the fixed 32-bit float depth format, usable as the
/// render pass's depth attachment. The call rejects a zero dimension, so
/// those are excluded; a size beyond the device's texture limit is also
/// rejected, but that limit lives in the opaque device and cannot be
/// stated.
#[verifier::external_body]
pub(crate) fn create_depth_texture_raw(device: &wgpu::Device, width: u32, height: u32) -> (t:
    wgpu::Texture)
    requires
        width > 0,
        height > 0,
{
    device.create_texture(
        &wgpu::TextureDescriptor {
            label: None,
            size: wgpu::Extent3d { width, height, depth_or_array_layers: 1 },
            mip_level_count: 1,
            sample_count: 1,
            dimension: wgpu::TextureDimension::D2,
            format: wgpu::TextureFormat::Depth32Float,
            usage: wgpu::TextureUsages::RENDER_ATTACHMENT | wgpu::TextureUsages::TEXTURE_BINDING,
            view_formats: &[],
        },
    )
}

/// Relies on wgpu::Queue::write_texture: uploads tightly packed RGBA pixel
/// rows (four bytes per pixel) into the whole of the given texture. The
/// data length and row stride must match the extent, which the precondition
/// pins down; the texture must be a copy target of that extent (the
/// renderer only passes ones it created so).
#[verifier::external_body]
pub(crate) fn write_rgba_texture(
    queue: &wgpu::Queue,
    texture: &wgpu::Texture,
    width: u32,
    height: u32,
    data: &[u8],
)
    requires
        data@.len() == 4 * width * height,
        4 * width <= u32::MAX,
{
    let target = wgpu::TexelCopyTextureInfo {
        texture,
        mip_level: 0,
        origin: wgpu::Origin3d::ZERO,
        aspect: wgpu::TextureAspect::All,
    };
    let layout = wgpu::TexelCopyBufferLayout {
        offset: 0,
        bytes_per_row: Some(4 * width),
        rows_per_image: Some(height),
    };
    queue.write_texture(target, data, layout, wgpu::Extent3d { width, height, depth_or_array_layers: 1 });
}

/// Relies on wgpu::Texture::create_view: a full default view of the texture.
#[verifier::external_body]
pub(crate) fn create_texture_view(texture: &wgpu::Texture) -> (v: wgpu::TextureView) {
    texture.create_view(&wgpu::TextureViewDescriptor::default())
}

/// Relies on wgpu::Device::create_sampler: the default sampler
/// (clamp-to-edge addressing with simple filtering).
#[verifier::external_body]
pub(crate) fn create_default_sampler(device: &wgpu::Device) -> (s: wgpu::Sampler) {
    device.create_sampler(&wgpu::SamplerDescriptor::default())
}

/// Relies on wgpu::util::DeviceExt::create_buffer_init: a GPU buffer
/// holding exactly the given bytes, with the usage flags of its kind
/// (vertex or index data, or a copy-updatable uniform).
#[verifier::external_body]
pub(crate) fn create_buffer_with_bytes(
    device: &wgpu::Device,
    kind: BufferKind,
    bytes: &[u8],
) -> (b: wgpu::Buffer)
{
    let usage = match kind {
        BufferKind::Vertex => wgpu::BufferUsages::VERTEX,
        BufferKind::Index => wgpu::BufferUsages::INDEX,
        BufferKind::Uniform => wgpu::BufferUsages::UNIFORM | wgpu::BufferUsages::COPY_DST,
    };
    device.create_buffer_init(
        &wgpu::util::BufferInitDescriptor { label: None, contents: bytes, usage },
    )
}

/// Relies on wgpu::Queue::write_buffer: schedules the bytes to be written
/// into the buffer at its start, visible to later submissions on this
/// queue. The GPU library asks for whole four-byte words, and for a buffer
/// at least as large as the data (the renderer only rewrites a buffer with
/// as many bytes as it was created with).
#[verifier::external_body]
pub(crate) fn write_buffer_start(queue: &wgpu::Queue, buffer: &wgpu::Buffer, bytes: &[u8])
    requires
        bytes@.len() % 4 == 0,
{
    queue.write_buffer(buffer, 0, bytes);
}

/// Relies on wgpu::Device::create_bind_group: binds a texture view (slot 0)
/// and its sampler (slot 1) against the material bind group layout.
#[verifier::external_body]
pub(crate) fn create_material_bind_group(
    device: &wgpu::Device,
    layout: &wgpu::BindGroupLayout,
    view: &wgpu::TextureView,
    sampler: &wgpu::Sampler,
) -> (g: wgpu::BindGroup)
{
    let entries = [
        wgpu::BindGroupEntry { binding: 0, resource: wgpu::BindingResource::TextureView(view) },
        wgpu::BindGroupEntry { binding: 1, resource: wgpu::BindingResource::Sampler(sampler) },
    ];
    device.create_bind_group(
        &wgpu::BindGroupDescriptor { layout, entries: &entries, label: None },
    )
}

/// Relies on wgpu::Device::create_bind_group: binds the whole uniform
/// buffer at slot 0 against the per-frame bind group layout.
#[verifier::external_body]
pub(crate) fn create_uniform_bind_group(
    device: &wgpu::Device,
    layout: &wgpu::BindGroupLayout,
    buffer: &wgpu::Buffer,
) -> (g: wgpu::BindGroup)
{
    device.create_bind_group(
        &wgpu::BindGroupDescriptor {
            layout,
            entries: &[
                wgpu::BindGroupEntry { binding: 0, resource: buffer.as_entire_binding() },
            ],
            label: None,
        },
    )
}

} // verus!
