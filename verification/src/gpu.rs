//! The crate's narrow window onto the GPU. Devices, queues, buffers and
//! bind groups are opaque handles of the wgpu crate; everything the rest of
//! the crate assumes of them is stated here, on small wrappers around single
//! wgpu calls.

use vstd::prelude::*;
use wgpu::util::DeviceExt;

verus! {

#[verifier::external_type_specification]
#[verifier::external_body]
pub struct ExDevice(wgpu::Device);

#[verifier::external_type_specification]
#[verifier::external_body]
pub struct ExQueue(wgpu::Queue);

#[verifier::external_type_specification]
#[verifier::external_body]
pub struct ExBuffer(wgpu::Buffer);

#[verifier::external_type_specification]
#[verifier::external_body]
pub struct ExTexture(wgpu::Texture);

#[verifier::external_type_specification]
#[verifier::external_body]
pub struct ExTextureView(wgpu::TextureView);

#[verifier::external_type_specification]
#[verifier::external_body]
pub struct ExSampler(wgpu::Sampler);

#[verifier::external_type_specification]
#[verifier::external_body]
pub struct ExBindGroupLayout(wgpu::BindGroupLayout);

#[verifier::external_type_specification]
#[verifier::external_body]
pub struct ExBindGroup(wgpu::BindGroup);

/// The allocated length of a GPU buffer in bytes. wgpu::Buffer::size
/// documents that this always equals the size requested at creation.
pub uninterp spec fn buffer_size(b: wgpu::Buffer) -> u64;

/// The buffer size wgpu::util::DeviceExt::create_buffer_init allocates for
/// `len` content bytes: rounded up to the four-byte copy alignment, zero for
/// no contents.
pub open spec fn init_buffer_size(len: int) -> int {
    if len == 0 {
        0
    } else {
        ((len + 3) / 4) * 4
    }
}

/// Relies on wgpu::Device::create_buffer: the returned buffer has exactly
/// the requested byte size. `index` picks index-buffer over vertex-buffer
/// usage; either way the buffer accepts queued writes.
#[verifier::external_body]
pub(crate) fn create_buffer(device: &wgpu::Device, size: u64, index: bool) -> (r: wgpu::Buffer)
    ensures
        buffer_size(r) == size,
{
    let usage = if index {
        wgpu::BufferUsages::INDEX | wgpu::BufferUsages::COPY_DST
    } else {
        wgpu::BufferUsages::VERTEX | wgpu::BufferUsages::COPY_DST
    };
    device.create_buffer(
        &wgpu::BufferDescriptor { label: None, size, usage, mapped_at_creation: false },
    )
}

/// Relies on wgpu::util::DeviceExt::create_buffer_init: the returned buffer
/// holds the given contents, in a buffer of the contents' length rounded up
/// to the four-byte copy alignment.
#[verifier::external_body]
pub(crate) fn create_buffer_with_data(device: &wgpu::Device, data: &Vec<u8>, index: bool) -> (r:
    wgpu::Buffer)
    ensures
        buffer_size(r) == init_buffer_size(data@.len() as int),
{
    let usage = if index {
        wgpu::BufferUsages::INDEX | wgpu::BufferUsages::COPY_DST
    } else {
        wgpu::BufferUsages::VERTEX | wgpu::BufferUsages::COPY_DST
    };
    device.create_buffer_init(
        &wgpu::util::BufferInitDescriptor { label: None, contents: data.as_slice(), usage },
    )
}

/// Relies on wgpu::Queue::write_buffer, which fails if the data overruns the
/// buffer's size, and whose validation wants whole four-byte words.
#[verifier::external_body]
pub(crate) fn write_buffer(queue: &wgpu::Queue, buffer: &wgpu::Buffer, data: &Vec<u8>)
    requires
        data@.len() <= buffer_size(*buffer),
        data@.len() % 4 == 0,
{
    queue.write_buffer(buffer, 0, data.as_slice());
}

/// Relies on wgpu::Device::create_texture for a plain RGBA8 2D texture of
/// the given pixel extent, ready to be written and sampled.
#[verifier::external_body]
pub(crate) fn create_texture(device: &wgpu::Device, width: u32, height: u32) -> (r: wgpu::Texture)
    requires
        width > 0,
        height > 0,
{
    let size = wgpu::Extent3d { width, height, depth_or_array_layers: 1 };
    let usage = wgpu::TextureUsages::TEXTURE_BINDING | wgpu::TextureUsages::COPY_DST;
    device.create_texture(&wgpu::TextureDescriptor {
        label: None,
        size,
        mip_level_count: 1,
        sample_count: 1,
        dimension: wgpu::TextureDimension::D2,
        format: wgpu::TextureFormat::Rgba8UnormSrgb,
        usage,
        view_formats: &[],
    })
}

/// Relies on wgpu::Queue::write_texture, whose layout validation wants
/// exactly four bytes per pixel here: the data must cover the extent.
#[verifier::external_body]
pub(crate) fn write_texture(
    queue: &wgpu::Queue,
    texture: &wgpu::Texture,
    data: &Vec<u8>,
    width: u32,
    height: u32,
)
    requires
        width > 0,
        height > 0,
        4 * (width as int) <= u32::MAX,
        data@.len() == 4 * (width as int) * (height as int),
{
    let target = wgpu::ImageCopyTexture {
        texture,
        mip_level: 0,
        origin: wgpu::Origin3d::ZERO,
        aspect: wgpu::TextureAspect::All,
    };
    let layout = wgpu::ImageDataLayout {
        offset: 0,
        bytes_per_row: Some(4 * width),
        rows_per_image: Some(height),
    };
    queue.write_texture(target, data.as_slice(), layout, wgpu::Extent3d { width, height, depth_or_array_layers: 1 });
}

/// Relies on wgpu::Texture::create_view with default settings.
#[verifier::external_body]
pub(crate) fn create_texture_view(texture: &wgpu::Texture) -> (r: wgpu::TextureView) {
    texture.create_view(&wgpu::TextureViewDescriptor::default())
}

/// Relies on wgpu::Device::create_sampler: clamping, with nearest-neighbour
/// magnification for pixel art and linear filtering otherwise.
#[verifier::external_body]
pub(crate) fn create_sampler(device: &wgpu::Device, pixel_art: bool) -> (r: wgpu::Sampler) {
    let mag_filter = if pixel_art { wgpu::FilterMode::Nearest } else { wgpu::FilterMode::Linear };
    device.create_sampler(&wgpu::SamplerDescriptor {
        address_mode_u: wgpu::AddressMode::ClampToEdge,
        address_mode_v: wgpu::AddressMode::ClampToEdge,
        address_mode_w: wgpu::AddressMode::ClampToEdge,
        mag_filter,
        min_filter: wgpu::FilterMode::Nearest,
        mipmap_filter: wgpu::FilterMode::Nearest,
        ..wgpu::SamplerDescriptor::default()
    })
}

/// Relies on wgpu::Device::create_bind_group_layout: one fragment-visible
/// sampled 2D texture and one filtering sampler, the shape every layer's
/// bind group shares.
#[verifier::external_body]
pub(crate) fn create_bind_group_layout(device: &wgpu::Device) -> (r: wgpu::BindGroupLayout) {
    let texture_ty = wgpu::BindingType::Texture {
        multisampled: false,
        view_dimension: wgpu::TextureViewDimension::D2,
        sample_type: wgpu::TextureSampleType::Float { filterable: true },
    };
    let sampler_ty = wgpu::BindingType::Sampler(wgpu::SamplerBindingType::Filtering);
    let vis = wgpu::ShaderStages::FRAGMENT;
    let entries = [
        wgpu::BindGroupLayoutEntry { binding: 0, visibility: vis, ty: texture_ty, count: None },
        wgpu::BindGroupLayoutEntry { binding: 1, visibility: vis, ty: sampler_ty, count: None },
    ];
    device.create_bind_group_layout(&wgpu::BindGroupLayoutDescriptor { entries: &entries, label: None })
}

/// Relies on wgpu::Device::create_bind_group, binding a texture view and its
/// sampler in the shape of `create_bind_group_layout`.
#[verifier::external_body]
pub(crate) fn create_bind_group(
    device: &wgpu::Device,
    layout: &wgpu::BindGroupLayout,
    view: &wgpu::TextureView,
    sampler: &wgpu::Sampler,
) -> (r: wgpu::BindGroup) {
    let entries = [
        wgpu::BindGroupEntry { binding: 0, resource: wgpu::BindingResource::TextureView(view) },
        wgpu::BindGroupEntry { binding: 1, resource: wgpu::BindingResource::Sampler(sampler) },
    ];
    device.create_bind_group(&wgpu::BindGroupDescriptor { label: None, layout, entries: &entries })
}

} // verus!
