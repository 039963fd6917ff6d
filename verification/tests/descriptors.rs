use vulkan_rs::descriptor::pool::{default_set_name, Pool};
use vulkan_rs::descriptor::set::DescriptorSet;
use vulkan_rs::descriptor::update::{
    BufferKind, CopyOp, Descriptor, ImageKind, ObjectKind, Operation, Queue, WriteOp,
};
use vulkan_rs::descriptor::layout::SetLayout;
use vulkan_rs::flags::image_layout::ImageLayout;
use vulkan_rs::flags::shaderkind::ShaderKind;

fn write_buffer(set: u64, binding: u32, buffer: u64) -> Operation {
    Operation::Write(WriteOp {
        destination: Descriptor { set, binding_index: binding, array_element: 0 },
        kind: 6,
        object: ObjectKind::Buffer(vec![BufferKind { buffer, offset: 16, range: 64 }]),
    })
}

#[test]
fn set_bound_reads_back() {
    let mut set = DescriptorSet::from(7, 100);
    set.set_bound((0, 0), vec![1, 2]);
    set.set_bound((1, 0), vec![3]);
    assert_eq!(set.get_bound((0, 0)), vec![1, 2]);
    set.set_bound((0, 0), vec![9]);
    assert_eq!(set.get_bound((0, 0)), vec![9]);
    assert_eq!(set.get_bound((1, 0)), vec![3]);
    assert_eq!(set.get_all_bound(), vec![9, 3]);
}

#[test]
fn apply_writes_images_and_buffers() {
    let mut sets = vec![DescriptorSet::from(7, 100), DescriptorSet::from(7, 200)];
    let queue = Queue::default()
        .with(Operation::Write(WriteOp {
            destination: Descriptor { set: 100, binding_index: 0, array_element: 0 },
            kind: 1,
            object: ObjectKind::Image(vec![
                ImageKind { sampler: 11, view: 12, layout: ImageLayout::ShaderReadOnlyOptimal },
                ImageKind { sampler: 21, view: 22, layout: ImageLayout::General },
            ]),
        }))
        .with(write_buffer(200, 1, 33));
    let update = queue.apply(&mut sets);
    assert_eq!(update.writes.len(), 2);
    assert_eq!(update.copies.len(), 0);
    assert!(update.skipped.is_empty());
    assert_eq!(update.writes[0].dst_set, 100);
    assert_eq!(update.writes[0].descriptor_type, 1);
    assert_eq!(update.writes[0].image_infos.len(), 2);
    assert_eq!(update.writes[0].image_infos[1].sampler, 21);
    assert_eq!(update.writes[0].image_infos[1].image_view, 22);
    assert_eq!(
        update.writes[0].image_infos[0].image_layout,
        ash::vk::ImageLayout::SHADER_READ_ONLY_OPTIMAL.as_raw()
    );
    assert_eq!(update.writes[1].buffer_infos[0].buffer, 33);
    assert_eq!(update.writes[1].buffer_infos[0].offset, 16);
    assert_eq!(update.writes[1].buffer_infos[0].range, 64);
    assert_eq!(sets[0].get_bound((0, 0)), vec![11, 12, 21, 22]);
    assert_eq!(sets[1].get_bound((1, 0)), vec![33]);
}

#[test]
fn write_to_gone_set_is_skipped() {
    let mut sets = vec![DescriptorSet::from(7, 100)];
    let update = Queue::default().with(write_buffer(999, 0, 5)).with(write_buffer(100, 0, 6)).apply(&mut sets);
    assert_eq!(update.skipped, vec![0]);
    assert_eq!(update.writes.len(), 1);
    assert_eq!(sets[0].get_all_bound(), vec![6]);
}

#[test]
fn copies_read_what_was_bound_before_the_queue() {
    let mut source = DescriptorSet::from(7, 100);
    source.set_bound((0, 0), vec![1]);
    let mut sets = vec![source, DescriptorSet::from(7, 200)];
    let update = Queue::default()
        .with(write_buffer(100, 0, 2))
        .with(Operation::Copy(CopyOp {
            source: Descriptor { set: 100, binding_index: 0, array_element: 0 },
            destination: Descriptor { set: 200, binding_index: 3, array_element: 1 },
            descriptor_count: 1,
        }))
        .apply(&mut sets);
    assert_eq!(update.copies.len(), 1);
    assert_eq!(update.copies[0].dst_binding, 3);
    assert_eq!(update.copies[0].dst_array_element, 1);
    assert_eq!(sets[0].get_bound((0, 0)), vec![2]);
    assert_eq!(sets[1].get_bound((3, 1)), vec![1]);
}

#[test]
fn last_write_wins() {
    let mut sets = vec![DescriptorSet::from(7, 100)];
    Queue::default().with(write_buffer(100, 0, 1)).with(write_buffer(100, 0, 2)).apply(&mut sets);
    assert_eq!(sets[0].get_bound((0, 0)), vec![2]);
}

#[test]
fn pool_names_and_owns_sets() {
    assert_eq!(default_set_name(12), "DescriptorSet.12");
    let mut pool = Pool::from(5);
    let named = pool.allocate_descriptor_sets(&vec![70, 71], &vec![100, 101]);
    assert_eq!(named, vec![(100, "DescriptorSet.0".to_string()), (101, "DescriptorSet.1".to_string())]);
    let more = pool.allocate_named_descriptor_sets(&vec![(72, "Lights".to_string())], &vec![102]);
    assert_eq!(more, vec![(102, "Lights".to_string())]);
    assert_eq!(pool.sets().len(), 3);
    assert_eq!(pool.sets()[1].layout(), 71);
    let update = pool.update(Queue::default().with(write_buffer(101, 2, 9)));
    assert_eq!(update.writes.len(), 1);
    assert_eq!(pool.sets()[1].get_bound((2, 0)), vec![9]);
}

#[test]
fn layout_bindings_record_stage_flags() {
    let builder = SetLayout::builder().with_binding(0, 1, 2, ShaderKind::Fragment);
    assert_eq!(builder.bindings().len(), 1);
    assert_eq!(builder.bindings()[0].descriptor_count, 2);
    assert_eq!(builder.bindings()[0].stage_flags, ash::vk::ShaderStageFlags::FRAGMENT.as_raw());
}

#[test]
fn pool_builder_records_sizes() {
    let builder = Pool::builder().with_total_set_count(3).with_descriptor(1, 2);
    assert_eq!(builder.max_sets(), 3);
    assert_eq!(builder.descriptors()[0].descriptor_type, 1);
    assert_eq!(builder.descriptors()[0].descriptor_count, 2);
}
