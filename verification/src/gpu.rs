//! The GPU backend behind the compositor, and its command trace.
//!
//! The compositor's contracts are stated over `Gpu::trace`, a ghost record of
//! every texture copy enqueued, every command-buffer submission, every
//! presentation request, and every blocking wait for the queue to drain, in
//! order.  Each wrapper here both performs one GPU call and appends the
//! matching entry, so a caller's postcondition about the trace accounts
//! exactly for the GPU work it issued.

use std::future::Future;

use vstd::prelude::*;

verus! {

#[verifier::external_type_specification]
#[verifier::external_body]
pub struct ExDevice(wgpu::Device);

#[verifier::external_type_specification]
#[verifier::external_body]
pub struct ExQueue(wgpu::Queue);

#[verifier::external_type_specification]
#[verifier::external_body]
pub struct ExSurface<'a>(wgpu::Surface<'a>);

#[verifier::external_type_specification]
#[verifier::external_body]
pub struct ExTexture(wgpu::Texture);

#[verifier::external_type_specification]
#[verifier::external_body]
pub struct ExSurfaceTexture(wgpu::SurfaceTexture);

#[verifier::external_type_specification]
#[verifier::external_body]
pub struct ExCommandEncoder(wgpu::CommandEncoder);

#[verifier::external_type_specification]
#[verifier::external_body]
pub struct ExCommandBuffer(wgpu::CommandBuffer);

/// One texture copy of a frame: the backing store it reads and the target
/// rectangle it writes, in physical pixels.
#[derive(Clone, Copy, PartialEq, Eq, Structural, Debug)]
pub struct CopyOp {
    /// The backing store the pixels come from.
    pub store: u64,
    /// Target rectangle origin on the presentable surface.
    pub x: u32,
    pub y: u32,
    /// Rectangle extent.
    pub width: u32,
    pub height: u32,
}

/// One entry of the GPU command trace.
#[derive(Clone, Copy, PartialEq, Eq, Structural, Debug)]
pub enum GpuOp {
    /// A texture-to-surface copy was enqueued.
    CopyTexture(CopyOp),
    /// The frame's command buffer went to the queue.
    Submit,
    /// The acquired surface frame was handed over for presentation.
    Present,
    /// A blocking wait until the queue's in-flight work had drained.
    WaitIdle,
}

/// The device, its one submission queue, the presentable surface, and the
/// ghost trace of the commands issued through the wrappers below.
pub struct Gpu {
    pub device: wgpu::Device,
    pub queue: wgpu::Queue,
    pub surface: wgpu::Surface<'static>,
    /// Every copy, submit, present and drain wait ever issued, in order.
    pub trace: Ghost<Seq<GpuOp>>,
}

/// The largest texture edge the backing-store allocator accepts, matching
/// the downlevel default limit the device is configured with.
pub const MAX_TEXTURE_DIM: u32 = 2048;

/// Relies on wgpu::Device::create_texture, inside an error scope
/// (Device::push_error_scope, ErrorScopeGuard::pop): a BGRA8 2D texture of
/// the given size, usable as a render target and as a copy source, or `None`
/// when the device reports the allocation out of memory.  On this backend
/// the popped scope resolves synchronously, so one poll reads it.  The size
/// bounds keep the call inside the device's validation limits, which would
/// otherwise raise a fatal error; they match the downlevel default limits
/// the host configures the device with.
#[verifier::external_body]
pub(crate) fn texture_new(device: &wgpu::Device, width: u32, height: u32) -> (r: Option<
    wgpu::Texture,
>)
    requires
        1 <= width <= MAX_TEXTURE_DIM,
        1 <= height <= MAX_TEXTURE_DIM,
{
    let scope = device.push_error_scope(wgpu::ErrorFilter::OutOfMemory);
    let size = wgpu::Extent3d { width, height, depth_or_array_layers: 1 };
    let format = wgpu::TextureFormat::Bgra8Unorm;
    let usage = wgpu::TextureUsages::COPY_SRC | wgpu::TextureUsages::RENDER_ATTACHMENT | wgpu::TextureUsages::TEXTURE_BINDING;
    let desc = wgpu::TextureDescriptor { label: Some("backing store"), size, mip_level_count: 1, sample_count: 1, dimension: wgpu::TextureDimension::D2, format, usage, view_formats: &[format] };
    let texture = device.create_texture(&desc);
    let mut popped = Box::pin(scope.pop());
    let mut cx = core::task::Context::from_waker(core::task::Waker::noop());
    match popped.as_mut().poll(&mut cx) {
        core::task::Poll::Ready(Some(_)) => None,
        _ => Some(texture),
    }
}

/// Relies on wgpu::Texture::destroy: frees the texture's GPU memory.
#[verifier::external_body]
pub(crate) fn texture_destroy(texture: wgpu::Texture) {
    texture.destroy();
}

/// Relies on wgpu::Surface::get_configuration and
/// wgpu::Surface::get_current_texture: the next presentable frame with its
/// width and height, which are the configured size the frame's texture is
/// created with.  The frame comes only from a surface currently configured
/// for the BGRA8 format the backing stores use, with copy-destination
/// usage; an unconfigured surface (on which acquiring would panic) or an
/// incompatible configuration is answered with `None`, as is a frame that
/// cannot be acquired now (timeout, occlusion, an outdated or lost surface,
/// or a caught validation error).
#[verifier::external_body]
pub(crate) fn surface_acquire(surface: &wgpu::Surface<'static>) -> (r: Option<
    (wgpu::SurfaceTexture, u32, u32),
>) {
    let config = match surface.get_configuration() {
        Some(c) if matches!(c.format, wgpu::TextureFormat::Bgra8Unorm) && c.usage.contains(wgpu::TextureUsages::COPY_DST) => c,
        _ => return None,
    };
    match surface.get_current_texture() {
        wgpu::CurrentSurfaceTexture::Success(f) => Some((f, config.width, config.height)),
        wgpu::CurrentSurfaceTexture::Suboptimal(f) => Some((f, config.width, config.height)),
        _ => None,
    }
}

/// Relies on wgpu::Device::create_command_encoder: a fresh encoder for one
/// frame's copies.
#[verifier::external_body]
pub(crate) fn encoder_new(device: &wgpu::Device) -> wgpu::CommandEncoder {
    device.create_command_encoder(&wgpu::CommandEncoderDescriptor { label: None })
}

/// Relies on wgpu::CommandEncoder::copy_texture_to_texture: enqueues the
/// copy of `op`'s rectangle from the store's texture onto the frame, without
/// blending, and records it in the trace.  The compositor hands it only
/// rectangles clamped within both textures' bounds, which the encoder's
/// later validation demands.
#[verifier::external_body]
pub(crate) fn encoder_copy(
    gpu: &mut Gpu,
    enc: &mut wgpu::CommandEncoder,
    src: &wgpu::Texture,
    frame: &wgpu::SurfaceTexture,
    op: CopyOp,
)
    ensures
        final(gpu).trace@ == old(gpu).trace@.push(GpuOp::CopyTexture(op)),
        final(gpu).device == old(gpu).device,
        final(gpu).queue == old(gpu).queue,
        final(gpu).surface == old(gpu).surface,
{
    let source = wgpu::TexelCopyTextureInfo {
        texture: src,
        mip_level: 0,
        origin: wgpu::Origin3d::ZERO,
        aspect: wgpu::TextureAspect::All,
    };
    let destination = wgpu::TexelCopyTextureInfo {
        texture: &frame.texture,
        mip_level: 0,
        origin: wgpu::Origin3d { x: op.x, y: op.y, z: 0 },
        aspect: wgpu::TextureAspect::All,
    };
    let extent = wgpu::Extent3d { width: op.width, height: op.height, depth_or_array_layers: 1 };
    enc.copy_texture_to_texture(source, destination, extent);
}

/// Relies on wgpu::CommandEncoder::finish: closes the encoder into a
/// submittable command buffer.  The range validation of the recorded copies
/// runs here; it holds because every rectangle was clamped into its
/// textures' bounds, both textures share the one BGRA8 format, and the
/// acquire gate admits only copy-destination surfaces.
#[verifier::external_body]
pub(crate) fn encoder_finish(enc: wgpu::CommandEncoder) -> wgpu::CommandBuffer {
    enc.finish()
}

/// Relies on wgpu::Queue::submit: hands one frame's command buffer to the
/// single submission queue, and records the submission in the trace.
#[verifier::external_body]
pub(crate) fn queue_submit(gpu: &mut Gpu, buf: wgpu::CommandBuffer)
    ensures
        final(gpu).trace@ == old(gpu).trace@.push(GpuOp::Submit),
        final(gpu).device == old(gpu).device,
        final(gpu).queue == old(gpu).queue,
        final(gpu).surface == old(gpu).surface,
{
    let _index = gpu.queue.submit([buf]);
}

/// Relies on wgpu::Queue::present: schedules the acquired frame for display
/// once the submitted work is done, and records it in the trace.
#[verifier::external_body]
pub(crate) fn queue_present(gpu: &mut Gpu, frame: wgpu::SurfaceTexture)
    ensures
        final(gpu).trace@ == old(gpu).trace@.push(GpuOp::Present),
        final(gpu).device == old(gpu).device,
        final(gpu).queue == old(gpu).queue,
        final(gpu).surface == old(gpu).surface,
{
    gpu.queue.present(frame);
}

/// Relies on wgpu::Device::poll with a blocking wait: returns once the
/// queue's in-flight work has drained, reporting whether the wait succeeded,
/// and records the wait in the trace.
#[verifier::external_body]
pub(crate) fn device_wait(gpu: &mut Gpu) -> (ok: bool)
    ensures
        final(gpu).trace@ == old(gpu).trace@.push(GpuOp::WaitIdle),
        final(gpu).device == old(gpu).device,
        final(gpu).queue == old(gpu).queue,
        final(gpu).surface == old(gpu).surface,
{
    gpu.device.poll(wgpu::PollType::wait_indefinitely()).is_ok()
}

} // verus!
