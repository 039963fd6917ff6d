use vulkan_rs::allocation::info::{Builder as AllocBuilder, MemoryLocation, MemoryUsage};
use vulkan_rs::allocation::memory::Memory;
use vulkan_rs::buffer::builder::{Buffer, BufferError, Builder};
use vulkan_rs::command::pool::Pool as CommandPool;
use vulkan_rs::device::logical::{DeviceQueue, Info as DeviceInfo};
use vulkan_rs::device::swapchain::{acquired_image, AcquiredImage, Swapchain};
use vulkan_rs::image::Image;
use vulkan_rs::image_view::ImageView;
use vulkan_rs::structs::Extent2D;

#[test]
fn index_buffer_needs_index_type() {
    let index_usage = ash::vk::BufferUsageFlags::INDEX_BUFFER.as_raw();
    match Builder::default().with_usage(index_usage).rebuild() {
        Err(BufferError::InvalidBufferFormat(m)) => assert_eq!(m, "Index Buffers must have an index type"),
        Ok(_) => panic!("an index buffer without index type"),
    }
    match Builder::default().with_index_type(Some(0)).rebuild() {
        Err(BufferError::InvalidBufferFormat(m)) => assert_eq!(m, "Non-Index Buffers cannot have an index type"),
        Ok(_) => panic!("an index type without index buffer"),
    }
    let ok = Builder::default()
        .with_usage(index_usage)
        .with_usage(ash::vk::BufferUsageFlags::TRANSFER_DST.as_raw())
        .with_index_type(Some(ash::vk::IndexType::UINT32.as_raw()))
        .with_size(64)
        .with_queue(2)
        .rebuild();
    match ok {
        Ok(create) => {
            assert_eq!(create.size, 64);
            assert_eq!(create.usage, index_usage | ash::vk::BufferUsageFlags::TRANSFER_DST.as_raw());
            assert_eq!(create.queue_families, vec![2]);
        }
        Err(_) => panic!("a valid index buffer"),
    }
}

#[test]
fn size_of_slice() {
    let data = [0u32; 5];
    assert_eq!(Builder::default().with_size_of(&data[..]).size(), 20);
}

#[test]
fn expand_only_when_too_small() {
    let buffer = Buffer::from(1, Builder::default().with_size(100));
    assert!(buffer.expand(50).is_none());
    assert!(buffer.expand(100).is_none());
    assert_eq!(buffer.expand(101).map(|b| b.size()), Some(101));
}

#[test]
fn memory_writes_stop_at_the_end() {
    let mut memory = Memory::new(10);
    assert_eq!(memory.write_slice(&[1u16, 2, 3][..]), Some(0));
    assert_eq!(memory.write_item(&7u32), Some(6));
    assert_eq!(memory.write(&[1u8]), 0);
    assert_eq!(memory.amount_written(), 10);
    let mut other = Memory::new(4);
    assert_eq!(other.write_item(&1u64), None);
    assert_eq!(other.amount_written(), 0);
    assert_eq!(other.write(&[1u8, 2]), 2);
}

#[test]
fn alloc_builder_accumulates_properties() {
    let b = AllocBuilder::default().with_usage(MemoryUsage::GpuOnly).requires_property(1).requires_property(4).prefers(8);
    assert_eq!(b.required_properties, 5);
    assert_eq!(b.preferred_properties, 8);
    assert_eq!(b.mem_usage, MemoryUsage::GpuOnly);
}

#[test]
fn acquired_images() {
    assert_eq!(acquired_image(3, false), AcquiredImage::Available(3));
    assert_eq!(acquired_image(1, true), AcquiredImage::Suboptimal(1));
}

#[test]
fn swapchain_names() {
    let mut builder = Swapchain::builder().with_image_count(3).with_image_extent(Extent2D { width: 800, height: 600 });
    builder.set_optname(Some("Display".to_string()));
    let chain = Swapchain::from(9, builder);
    assert_eq!(chain.image_count(), 3);
    assert_eq!(chain.frame_name(2), Some("Display.Frame2".to_string()));
    assert_eq!(chain.image_name(0), Some("Display.Frame0.Image".to_string()));
    assert_eq!(chain.image_view_name(1), Some("Display.Frame1.Image.View".to_string()));
    let unnamed = Swapchain::from(9, Swapchain::builder());
    assert_eq!(unnamed.frame_name(0), None);
}

#[test]
fn swapchain_image_is_one_layer_deep() {
    let image = Image::from_swapchain(4, 44, Extent2D { width: 8, height: 2 });
    assert_eq!(image.image_size().depth, 1);
    assert_eq!(image.image_size().width, 8);
    let info = ImageView::builder().for_image(&image).create_info();
    assert_eq!(info.image, 4);
    assert_eq!(info.format, 44);
    assert_eq!(info.view_type, ash::vk::ImageViewType::TYPE_2D.as_raw());
    assert_eq!(info.components.r, ash::vk::ComponentSwizzle::R.as_raw());
}

#[test]
fn command_buffer_names() {
    let pool = CommandPool::from("Pool".to_string(), 3);
    let buffers = pool.allocate_buffers(2, &vec![10, 11, 12]);
    assert_eq!(buffers.len(), 2);
    assert_eq!(buffers[1].internal, 11);
    assert_eq!(buffers[1].name, "Pool.Buffer1");
    let info = CommandPool::builder().with_queue_family_index(2).create_info();
    assert_eq!((info.queue_family_index, info.flags), (2, 0));
}

#[test]
fn device_info_validation_layer() {
    let info = DeviceInfo::default()
        .add_extension("VK_KHR_swapchain")
        .set_validation_enabled(true)
        .add_queue(DeviceQueue { queue_family_index: 1, priorities: vec![1.0f32.to_bits()] })
        .with_name("Device".to_string());
    assert_eq!(info.layer_names(), &vec!["VK_LAYER_KHRONOS_validation".to_string()]);
    assert_eq!(info.extension_names(), &vec!["VK_KHR_swapchain".to_string()]);
    assert_eq!(info.queues()[0].queue_family_index, 1);
    assert!(DeviceInfo::default().set_validation_enabled(false).layer_names().is_empty());
}

#[test]
fn buffer_presets() {
    let gpu = Buffer::create_gpu("Vertices".to_string(), ash::vk::BufferUsageFlags::VERTEX_BUFFER.as_raw(), 256, None, true);
    assert_eq!(gpu.usage(), (ash::vk::BufferUsageFlags::VERTEX_BUFFER | ash::vk::BufferUsageFlags::TRANSFER_DST).as_raw());
    assert_eq!(gpu.size(), 256);
    assert_eq!(gpu.location(), MemoryLocation::GpuOnly);
    assert!(gpu.supress_drop_log());
    assert_eq!(gpu.name(), &Some("Vertices".to_string()));
    let staging = Buffer::create_staging("Staging".to_string(), 64);
    assert_eq!(staging.usage(), ash::vk::BufferUsageFlags::TRANSFER_SRC.as_raw());
    assert_eq!(staging.location(), MemoryLocation::CpuToGpu);
    assert!(staging.rebuild().is_ok());
}
