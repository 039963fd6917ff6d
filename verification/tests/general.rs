use ash::vk::{DebugUtilsMessageSeverityFlagsEXT as S, DebugUtilsMessageTypeFlagsEXT as T};
use vulkan_rs::context::Context;
use vulkan_rs::general::app_info::AppInfo;
use vulkan_rs::general::version::{as_version_string, make_version, version_major, version_minor, version_patch};
use vulkan_rs::instance::info::{debug_messenger_masks, Info, InstanceError};
use vulkan_rs::text::{str_equals, to_decimal};

#[test]
fn make_version_matches_vulkan() {
    #[allow(deprecated)]
    let expected = ash::vk::make_version(1, 2, 0);
    assert_eq!(make_version(1, 2, 0), expected);
    assert_eq!(make_version(1, 2, 0), (1 << 22) | (2 << 12));
}

#[test]
fn version_round_trip() {
    let v = make_version(3, 1023, 4095);
    assert_eq!((version_major(v), version_minor(v), version_patch(v)), (3, 1023, 4095));
}

#[test]
fn version_string() {
    assert_eq!(as_version_string(&make_version(1, 2, 3)), "1.2.3");
    assert_eq!(as_version_string(&0), "0.0.0");
    assert_eq!(to_decimal(1234567890), "1234567890");
    assert_eq!(to_decimal(0), "0");
}

#[test]
fn app_info_description() {
    let info = AppInfo::new().engine("Engine", make_version(0, 1, 0)).with_application("Demo", make_version(2, 0, 7));
    assert_eq!(info.description(), "Vulkan(v1.2.0) for Engine(v0.1.0) running Demo(v2.0.7)");
    assert_eq!(info.engine_name(), "Engine");
    assert_eq!(info.app_version(), "2.0.7");
}

fn context(layers: &[&str]) -> Context {
    Context {
        valid_instance_extensions: vec!["VK_KHR_surface".to_string()],
        valid_instance_layers: layers.iter().map(|l| l.to_string()).collect(),
    }
}

#[test]
fn valid_layers() {
    let ctx = context(&["VK_LAYER_KHRONOS_validation"]);
    assert!(ctx.is_valid_instance_layer(&"VK_LAYER_KHRONOS_validation".to_string()));
    assert!(!ctx.is_valid_instance_layer(&"VK_LAYER_other".to_string()));
    assert!(str_equals("abc", "abc"));
    assert!(!str_equals("abc", "abd"));
}

#[test]
fn validation_adds_extension_and_layer() {
    let info = Info::default().set_use_validation(true);
    assert!(info.validation_enabled());
    assert_eq!(info.extensions(), &vec!["VK_EXT_debug_utils".to_string()]);
    assert_eq!(info.layers(), &vec!["VK_LAYER_KHRONOS_validation".to_string()]);
    let plain = Info::default().set_use_validation(false);
    assert!(plain.layers().is_empty());
}

#[test]
fn invalid_layer_is_reported() {
    let mut info = Info::default();
    info.add_layer("VK_LAYER_KHRONOS_validation");
    info.add_layer("VK_LAYER_missing");
    info.add_layer("VK_LAYER_other_missing");
    let ctx = context(&["VK_LAYER_KHRONOS_validation"]);
    assert_eq!(info.has_invalid_layer(&ctx), Some("VK_LAYER_missing".to_string()));
    match info.create_object(&ctx) {
        Err(InstanceError::InvalidInstanceLayer(layer)) => assert_eq!(layer, "VK_LAYER_missing"),
        Ok(_) => panic!("the layer is not offered"),
    }
}

#[test]
fn create_object_with_valid_layers() {
    let ctx = context(&["VK_LAYER_KHRONOS_validation"]);
    let info = Info::default().set_use_validation(true);
    match info.create_object(&ctx) {
        Ok(create) => {
            assert!(create.validation_enabled);
            assert_eq!(create.layers, vec!["VK_LAYER_KHRONOS_validation".to_string()]);
            assert_eq!(create.extensions, vec!["VK_EXT_debug_utils".to_string()]);
        }
        Err(_) => panic!("every layer is offered"),
    }
}

#[test]
fn instance_description() {
    let mut info = Info::default().set_app_info(AppInfo::new());
    info.add_extension("VK_KHR_surface");
    info.add_extension("quote\"d");
    let description = info.description();
    let expected = format!(
        "{} with extensions {:?} and layers {:?}",
        AppInfo::new().description(),
        vec!["VK_KHR_surface", "quote\"d"],
        Vec::<String>::new()
    );
    assert_eq!(description, expected);
}

#[test]
fn debug_messenger_when_validating() {
    assert_eq!(
        debug_messenger_masks(true),
        Some(((S::ERROR | S::WARNING | S::INFO).as_raw(), (T::VALIDATION | T::PERFORMANCE | T::GENERAL).as_raw()))
    );
    assert_eq!(debug_messenger_masks(false), None);
}
