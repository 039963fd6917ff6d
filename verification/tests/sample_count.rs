use ash::vk;
use vulkan_rs::flags::flag_set::FlagSet;
use vulkan_rs::flags::sample_count::SampleCount;

#[test]
fn empty() {
    assert_eq!(
        SampleCount::as_set(vk::SampleCountFlags::empty().as_raw()).mask(),
        FlagSet::<SampleCount>::empty().mask()
    );
}

#[test]
fn all() {
    let flags = vk::SampleCountFlags::TYPE_1
        | vk::SampleCountFlags::TYPE_2
        | vk::SampleCountFlags::TYPE_4
        | vk::SampleCountFlags::TYPE_8
        | vk::SampleCountFlags::TYPE_16
        | vk::SampleCountFlags::TYPE_32
        | vk::SampleCountFlags::TYPE_64;
    assert_eq!(SampleCount::as_set(flags.as_raw()).mask(), FlagSet::<SampleCount>::all().mask());
}

#[test]
fn as_set_keeps_only_sample_counts() {
    let set = SampleCount::as_set(vk::SampleCountFlags::TYPE_4.as_raw() | 0x8000_0000);
    assert_eq!(set.mask(), vk::SampleCountFlags::TYPE_4.as_raw());
}
