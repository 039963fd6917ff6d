use ash::vk::DebugUtilsMessageSeverityFlagsEXT as S;
use ash::vk::DebugUtilsMessageTypeFlagsEXT as T;
use vulkan_rs::command::barrier::Image as ImageBarrier;
use vulkan_rs::command::frame::{AttachedView, MultiBuilder, SingleBuilder};
use vulkan_rs::command::framebuffer::Framebuffer;
use vulkan_rs::command::op_submit::SubmitInfo;
use vulkan_rs::command::syncing::SyncObject;
use vulkan_rs::flags::access::Access;
use vulkan_rs::flags::pipeline_stage::PipelineStage;
use vulkan_rs::instance::messages::{message_level, message_target, MessageLevel};
use vulkan_rs::structs::Extent2D;

#[test]
fn ring_of_frame_buffers() {
    let mut ring = MultiBuilder::default().with_extent(Extent2D { width: 4, height: 3 }).with_sizes(2, 2);
    ring.set_name("Ring".to_string());
    ring.attach(0, AttachedView::PerFrame(vec![10, 11]));
    ring.attach(1, AttachedView::Shared(20));
    assert_eq!(ring.frames(), &vec![vec![10, 20], vec![11, 20]]);
    let frames = ring.build();
    assert_eq!(frames.len(), 2);
    assert_eq!(frames[1].0.name(), "Ring.1");
    assert_eq!(frames[1].0.extent(), Extent2D { width: 4, height: 3 });
    assert_eq!(frames[1].0.layer_count(), 1);
    assert_eq!(frames[1].1, vec![11, 20]);
}

#[test]
fn single_frame_buffer_defaults() {
    let builder = SingleBuilder::default().set_extent(Extent2D { width: 2, height: 2 });
    assert_eq!(builder.layer_count(), 1);
    assert_eq!(builder.extent().width, 2);
}

#[test]
fn submit_info_records_in_order() {
    let info = SubmitInfo::default()
        .wait_for_semaphores(&vec![1, 2])
        .wait_for(3, PipelineStage::ColorAttachmentOutput)
        .add_buffer(7)
        .signal_when_complete(9);
    assert_eq!(info.wait_semaphores(), &vec![1, 2, 3]);
    assert_eq!(info.wait_stages(), &vec![ash::vk::PipelineStageFlags::COLOR_ATTACHMENT_OUTPUT.as_raw()]);
    assert_eq!(info.buffers(), &vec![7]);
    assert_eq!(info.signal_semaphores(), &vec![9]);
}

#[test]
fn sync_object_handles() {
    assert_eq!(SyncObject::Semaphore(5).handles(), (5, 0));
    assert_eq!(SyncObject::Fence(6).handles(), (0, 6));
}

#[test]
fn image_barrier_masks() {
    let barrier = ImageBarrier::default()
        .requires_access(Access::TransferWrite)
        .prevents(Access::ShaderRead)
        .prevents(Access::ShaderWrite);
    assert_eq!(
        barrier.access_masks(),
        (
            ash::vk::AccessFlags::TRANSFER_WRITE.as_raw(),
            (ash::vk::AccessFlags::SHADER_READ | ash::vk::AccessFlags::SHADER_WRITE).as_raw()
        )
    );
    assert_eq!(barrier.queue_families(), (ash::vk::QUEUE_FAMILY_IGNORED, ash::vk::QUEUE_FAMILY_IGNORED));
}

#[test]
fn validation_messages() {
    assert_eq!(message_level(S::ERROR.as_raw()), MessageLevel::Error);
    assert_eq!(message_level(S::VERBOSE.as_raw()), MessageLevel::Trace);
    assert_eq!(message_level((S::ERROR | S::WARNING).as_raw()), MessageLevel::Debug);
    assert_eq!(message_target(T::VALIDATION.as_raw()), "vulkan-validation");
    assert_eq!(message_target(T::PERFORMANCE.as_raw()), "vulkan-performance");
    assert_eq!(message_target(T::GENERAL.as_raw()), "vulkan-general");
    assert_eq!(message_target(0x8), "vulkan-unknown");
}

#[test]
fn framebuffer_description() {
    let mut builder = Framebuffer::builder().set_extent(Extent2D { width: 8, height: 6 });
    assert_eq!(builder.layer_count(), 1);
    assert_eq!(builder.name(), &None);
    builder.set_optname(Some("Main".to_string()));
    assert_eq!(builder.name(), &Some("Main".to_string()));
    assert_eq!(builder.extent(), Extent2D { width: 8, height: 6 });
    assert_eq!(Framebuffer::from(12).handle(), 12);
}
