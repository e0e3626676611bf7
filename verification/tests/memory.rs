use pathfinder_hal::memory::{
    buffer_offsets, find_memory_type, first_ready_index, image_extent, memory_type_suitable,
    staging_copy, Extent, StagingCopy, SubmissionList, COHERENT, CPU_VISIBLE, DEVICE_LOCAL,
};
use pathfinder_hal::primitives::Point2DI32;

#[test]
fn memory_type_must_be_allowed_and_have_the_properties() {
    assert!(memory_type_suitable(0b0100, 2, CPU_VISIBLE | COHERENT, CPU_VISIBLE));
    assert!(!memory_type_suitable(0b0100, 1, CPU_VISIBLE | COHERENT, CPU_VISIBLE));
    assert!(!memory_type_suitable(0b0100, 2, DEVICE_LOCAL, CPU_VISIBLE));
}

#[test]
fn first_suitable_memory_type_is_found() {
    let types = vec![DEVICE_LOCAL, CPU_VISIBLE, CPU_VISIBLE | COHERENT, CPU_VISIBLE | COHERENT];
    assert_eq!(find_memory_type(0b1111, &types, CPU_VISIBLE | COHERENT), Some(2));
    assert_eq!(find_memory_type(0b1000, &types, CPU_VISIBLE | COHERENT), Some(3));
    assert_eq!(find_memory_type(0b0001, &types, CPU_VISIBLE), None);
    assert_eq!(find_memory_type(0b1111, &types, 0), Some(0));
    assert_eq!(find_memory_type(0b1111, &vec![], 0), None);
}

#[test]
fn first_ready_index_finds_the_first_set_flag() {
    assert_eq!(first_ready_index(&vec![false, true, true]), Some(1));
    assert_eq!(first_ready_index(&vec![false, false]), None);
    assert_eq!(first_ready_index(&vec![]), None);
}

#[test]
fn buffers_of_a_pool_are_laid_end_to_end() {
    assert_eq!(buffer_offsets(256, 4), vec![0, 256, 512, 768]);
    assert!(buffer_offsets(256, 0).is_empty());
}

#[test]
fn submission_list_holds_one_draw_per_buffer() {
    let mut list = SubmissionList::new(2);
    assert!(!list.is_full());
    assert!(list.record((0, 4), (0, 10), 0));
    assert!(list.record((0, 4), (0, 3), 1));
    assert!(list.is_full());
    assert!(!list.record((0, 4), (0, 1), 0));
    assert_eq!(list.entries().len(), 2);
    assert_eq!(list.entries()[0].instances, (0, 10));
    assert_eq!(list.entries()[1].buffer_index, 1);
    list.clear();
    assert!(list.entries().is_empty());
    assert!(!list.is_full());
}

#[test]
fn image_extent_has_depth_one() {
    assert_eq!(image_extent(Point2DI32::new(16, 9)), Extent { width: 16, height: 9, depth: 1 });
}

#[test]
fn staging_copy_of_a_luminance_texture() {
    assert_eq!(
        staging_copy(Point2DI32::new(256, 4), 1),
        StagingCopy {
            staging_buffer_size: 1024,
            buffer_width: 256,
            buffer_height: 4,
            image_extent: Extent { width: 256, height: 4, depth: 1 },
        }
    );
    assert_eq!(staging_copy(Point2DI32::new(8, 2), 4).buffer_width, 8);
}
