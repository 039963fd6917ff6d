use ash::vk;
use vulkan_rs::device::physical::{
    choose_physical_device, default_constraints, find_physical_device, Constraint, Device, QueueFamily, SurfaceCapabilities,
    SurfaceFormat, SurfaceSupport,
};
use vulkan_rs::flags::access::Access;
use vulkan_rs::flags::color_component::ColorComponent;
use vulkan_rs::flags::format::{stencilable, Bits, Components, DataType};
use vulkan_rs::flags::format as fmt;
use vulkan_rs::flags::pipeline_stage::PipelineStage;
use vulkan_rs::flags::shaderkind::ShaderKind;
use vulkan_rs::structs::Extent2D;

#[test]
fn access_names_round_trip() {
    for name in Access::all_serialized() {
        let access = Access::try_from(name.as_str()).unwrap();
        assert_eq!(access.to_string(), name);
    }
    assert_eq!(Access::all_serialized().len(), 17);
    assert!(Access::try_from("NotAnAccess").is_err());
    assert_eq!(Access::MemoryWrite.to_vk(), vk::AccessFlags::MEMORY_WRITE.as_raw());
}

#[test]
fn access_sets_fold_to_masks() {
    let set = Access::vecset(&vec![Access::ShaderRead, Access::TransferWrite, Access::ShaderRead]);
    assert_eq!(Access::fold(&set), (vk::AccessFlags::SHADER_READ | vk::AccessFlags::TRANSFER_WRITE).as_raw());
}

#[test]
fn pipeline_stage_names() {
    for name in PipelineStage::all_serialized() {
        assert_eq!(PipelineStage::try_from(name.as_str()).unwrap().to_string(), name);
    }
    assert_eq!(PipelineStage::ColorAttachmentOutput.to_vk(), vk::PipelineStageFlags::COLOR_ATTACHMENT_OUTPUT.as_raw());
}

#[test]
fn formats() {
    assert_eq!(fmt::format(&[ColorComponent::R, ColorComponent::G, ColorComponent::B, ColorComponent::A], Bits::Bit8, DataType::SRGB), vk::Format::R8G8B8A8_SRGB.as_raw());
    assert_eq!(fmt::format(&[ColorComponent::R], Bits::Bit8, DataType::UnsignedNorm), vk::Format::R8_UNORM.as_raw());
    assert_eq!(fmt::format(&[ColorComponent::R, ColorComponent::G, ColorComponent::B], Bits::Bit32, DataType::SFloat), vk::Format::R32G32B32_SFLOAT.as_raw());
    assert_eq!(fmt::format(&[ColorComponent::B, ColorComponent::G, ColorComponent::R, ColorComponent::A], Bits::Bit8, DataType::UnsignedNorm), vk::Format::B8G8R8A8_UNORM.as_raw());
    assert_eq!(fmt::format(&[ColorComponent::A], Bits::Bit8, DataType::UnsignedNorm), vk::Format::UNDEFINED.as_raw());
    assert_eq!(Components::new(vec![ColorComponent::R, ColorComponent::G], Bits::Bit16, DataType::SignedInt).as_format(), vk::Format::R16G16_SINT.as_raw());
    assert_eq!(fmt::default(), vk::Format::UNDEFINED.as_raw());
}

#[test]
fn stencil_formats() {
    assert!(stencilable(vk::Format::S8_UINT.as_raw()));
    assert!(stencilable(vk::Format::D24_UNORM_S8_UINT.as_raw()));
    assert!(!stencilable(vk::Format::D32_SFLOAT.as_raw()));
}

#[test]
fn shader_stage_bits() {
    assert_eq!(ShaderKind::Vertex.to_vk(), vk::ShaderStageFlags::VERTEX.as_raw());
    assert_eq!(ShaderKind::Compute.to_vk(), vk::ShaderStageFlags::COMPUTE.as_raw());
}

fn support(modes: Vec<i32>) -> SurfaceSupport {
    SurfaceSupport::new(
        SurfaceCapabilities {
            min_image_count: 2,
            max_image_count: 8,
            current_extent: Extent2D { width: 640, height: 480 },
            current_transform: 1,
        },
        vec![SurfaceFormat {
            format: vk::Format::B8G8R8A8_SRGB.as_raw(),
            color_space: vk::ColorSpaceKHR::SRGB_NONLINEAR.as_raw(),
        }],
        modes,
    )
}

fn device(kind: vk::PhysicalDeviceType, name: &str, graphics: bool) -> Device {
    let flags = if graphics { vk::QueueFlags::GRAPHICS.as_raw() } else { vk::QueueFlags::TRANSFER.as_raw() };
    Device::new(
        1,
        kind.as_raw(),
        name.to_string(),
        0,
        0,
        vec![QueueFamily { index: 0, queue_flags: flags, supports_surface: true }],
        vec!["VK_KHR_swapchain".to_string()],
    )
}

#[test]
fn prefers_the_discrete_gpu() {
    let devices = vec![
        device(vk::PhysicalDeviceType::INTEGRATED_GPU, "integrated", true),
        device(vk::PhysicalDeviceType::DISCRETE_GPU, "discrete", true),
    ];
    let supports = vec![support(vec![vk::PresentModeKHR::FIFO.as_raw()]), support(vec![vk::PresentModeKHR::FIFO.as_raw()])];
    let chosen = choose_physical_device(devices, &supports, &default_constraints()).ok().unwrap();
    assert_eq!(chosen.name(), "discrete");
}

#[test]
fn mailbox_is_selected_when_offered() {
    let devices = vec![device(vk::PhysicalDeviceType::DISCRETE_GPU, "gpu", true)];
    let supports = vec![support(vec![vk::PresentModeKHR::FIFO.as_raw(), vk::PresentModeKHR::MAILBOX.as_raw()])];
    let chosen = choose_physical_device(devices, &supports, &default_constraints()).ok().unwrap();
    assert_eq!(chosen.selected_present_mode(), vk::PresentModeKHR::MAILBOX.as_raw());
}

#[test]
fn missing_extension_is_reported() {
    let d = Device::new(
        2,
        vk::PhysicalDeviceType::DISCRETE_GPU.as_raw(),
        "no swapchain".to_string(),
        0,
        0,
        vec![QueueFamily { index: 0, queue_flags: vk::QueueFlags::GRAPHICS.as_raw(), supports_surface: true }],
        Vec::new(),
    );
    let supports = vec![support(vec![vk::PresentModeKHR::FIFO.as_raw()])];
    match choose_physical_device(vec![d], &supports, &default_constraints()) {
        Err(Some(Constraint::HasExtension(name))) => assert_eq!(name, "VK_KHR_swapchain"),
        _ => panic!("the swapchain extension is missing"),
    }
}

#[test]
fn required_queue_family() {
    let constraints = vec![Constraint::HasQueueFamily(vk::QueueFlags::GRAPHICS.as_raw(), true)];
    let devices = vec![device(vk::PhysicalDeviceType::DISCRETE_GPU, "transfer only", false)];
    let supports = vec![support(vec![vk::PresentModeKHR::FIFO.as_raw()])];
    match choose_physical_device(devices, &supports, &constraints) {
        Err(Some(Constraint::HasQueueFamily(flags, surface))) => {
            assert_eq!(flags, vk::QueueFlags::GRAPHICS.as_raw());
            assert!(surface);
        }
        _ => panic!("the graphics family is missing"),
    }
}

#[test]
fn no_device_at_all() {
    assert!(matches!(choose_physical_device(Vec::new(), &Vec::new(), &default_constraints()), Err(None)));
}

#[test]
fn queue_index_is_first_matching_family() {
    let d = Device::new(
        2,
        vk::PhysicalDeviceType::DISCRETE_GPU.as_raw(),
        "gpu".to_string(),
        0,
        0,
        vec![
            QueueFamily { index: 0, queue_flags: vk::QueueFlags::TRANSFER.as_raw(), supports_surface: false },
            QueueFamily { index: 1, queue_flags: (vk::QueueFlags::GRAPHICS | vk::QueueFlags::TRANSFER).as_raw(), supports_surface: true },
        ],
        Vec::new(),
    );
    assert_eq!(d.get_queue_index(vk::QueueFlags::TRANSFER.as_raw(), false), Some(0));
    assert_eq!(d.get_queue_index(vk::QueueFlags::TRANSFER.as_raw(), true), Some(1));
    assert_eq!(d.get_queue_index(vk::QueueFlags::COMPUTE.as_raw(), false), None);
}

#[test]
fn device_display() {
    let d = Device::new(
        3,
        vk::PhysicalDeviceType::DISCRETE_GPU.as_raw(),
        "GeForce".to_string(),
        vulkan_rs::general::version::make_version(1, 3, 250),
        vulkan_rs::general::version::make_version(535, 0, 1),
        Vec::new(),
        Vec::new(),
    );
    assert_eq!(d.to_string(), "GeForce(v1.3.250) running driver version v535.0.1");
    assert_eq!(d.handle(), 3);
}

#[test]
fn optional_set_never_fails() {
    let constraints = vec![Constraint::PrioritizedSet(vec![Constraint::HasExtension("VK_missing".to_string())], true)];
    let devices = vec![device(vk::PhysicalDeviceType::DISCRETE_GPU, "gpu", true)];
    let supports = vec![support(vec![vk::PresentModeKHR::FIFO.as_raw()])];
    assert!(choose_physical_device(devices, &supports, &constraints).is_ok());
}

#[test]
fn preferences_score_without_failing() {
    let mut d = device(vk::PhysicalDeviceType::INTEGRATED_GPU, "gpu", true);
    let s = support(vec![vk::PresentModeKHR::FIFO.as_raw()]);
    let constraints = vec![
        Constraint::IsDeviceType(vk::PhysicalDeviceType::DISCRETE_GPU.as_raw(), Some(100)),
        Constraint::IsDeviceType(vk::PhysicalDeviceType::INTEGRATED_GPU.as_raw(), Some(7)),
        Constraint::CanPresentWith(vk::PresentModeKHR::MAILBOX.as_raw(), Some(1)),
    ];
    assert_eq!(d.score_against_constraints(&constraints, false, &s).ok(), Some(7));
    assert_eq!(d.selected_present_mode(), vk::PresentModeKHR::FIFO.as_raw());
}

#[test]
fn first_success_stops_the_search() {
    let mut d = device(vk::PhysicalDeviceType::DISCRETE_GPU, "gpu", true);
    let s = support(vec![vk::PresentModeKHR::FIFO.as_raw(), vk::PresentModeKHR::IMMEDIATE.as_raw()]);
    let constraints = vec![
        Constraint::CanPresentWith(vk::PresentModeKHR::MAILBOX.as_raw(), None),
        Constraint::CanPresentWith(vk::PresentModeKHR::IMMEDIATE.as_raw(), None),
        Constraint::CanPresentWith(vk::PresentModeKHR::FIFO.as_raw(), None),
    ];
    assert_eq!(d.score_against_constraints(&constraints, true, &s).ok(), Some(0));
    assert_eq!(d.selected_present_mode(), vk::PresentModeKHR::IMMEDIATE.as_raw());
}

#[test]
fn fitting_device_beats_a_later_failure() {
    let constraints = vec![Constraint::IsDeviceType(vk::PhysicalDeviceType::DISCRETE_GPU.as_raw(), None)];
    let devices = vec![
        device(vk::PhysicalDeviceType::DISCRETE_GPU, "fits", true),
        device(vk::PhysicalDeviceType::INTEGRATED_GPU, "fails", true),
    ];
    let supports = vec![support(vec![vk::PresentModeKHR::FIFO.as_raw()]), support(vec![vk::PresentModeKHR::FIFO.as_raw()])];
    let chosen = choose_physical_device(devices, &supports, &constraints).ok().unwrap();
    assert_eq!(chosen.name(), "fits");
}

#[test]
fn no_fitting_device_reports_the_last_failure() {
    let devices = vec![
        device(vk::PhysicalDeviceType::INTEGRATED_GPU, "a", true),
        device(vk::PhysicalDeviceType::CPU, "b", true),
    ];
    let supports = vec![support(vec![vk::PresentModeKHR::FIFO.as_raw()]), support(vec![vk::PresentModeKHR::FIFO.as_raw()])];
    let constraints = vec![Constraint::IsDeviceType(vk::PhysicalDeviceType::DISCRETE_GPU.as_raw(), None)];
    match choose_physical_device(devices, &supports, &constraints) {
        Err(Some(Constraint::IsDeviceType(kind, None))) => assert_eq!(kind, vk::PhysicalDeviceType::DISCRETE_GPU.as_raw()),
        _ => panic!("no device fits"),
    }
}

#[test]
fn checked_search_refuses_overflowing_scores() {
    let constraints = vec![
        Constraint::IsDeviceType(vk::PhysicalDeviceType::DISCRETE_GPU.as_raw(), Some(u32::MAX)),
        Constraint::CanPresentWith(vk::PresentModeKHR::FIFO.as_raw(), Some(1)),
    ];
    let devices = vec![device(vk::PhysicalDeviceType::DISCRETE_GPU, "gpu", true)];
    let supports = vec![support(vec![vk::PresentModeKHR::FIFO.as_raw()])];
    assert!(find_physical_device(devices, &supports, &constraints).is_none());
    let devices = vec![device(vk::PhysicalDeviceType::DISCRETE_GPU, "gpu", true)];
    let found = find_physical_device(devices, &supports, &default_constraints());
    assert_eq!(found.unwrap().ok().unwrap().name(), "gpu");
}

#[test]
fn required_set_reports_its_first_failure() {
    let mut d = device(vk::PhysicalDeviceType::INTEGRATED_GPU, "gpu", true);
    let s = support(vec![vk::PresentModeKHR::FIFO.as_raw()]);
    let constraints = vec![Constraint::PrioritizedSet(
        vec![
            Constraint::IsDeviceType(vk::PhysicalDeviceType::DISCRETE_GPU.as_raw(), None),
            Constraint::HasExtension("VK_missing".to_string()),
        ],
        false,
    )];
    match d.score_against_constraints(&constraints, false, &s) {
        Err(Constraint::IsDeviceType(kind, None)) => assert_eq!(kind, vk::PhysicalDeviceType::DISCRETE_GPU.as_raw()),
        _ => panic!("the first member's failure is reported"),
    }
}
