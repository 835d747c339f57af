use obot::memory::{
    align_up, heap_free_bytes, heap_used_bytes, init_stack_watermark, saturating_usize_to_u32,
    stack_free_bytes, stack_free_bytes_of, stack_paint_end, stack_used_bytes,
    stack_used_bytes_of, STACK_PATTERN,
};

#[test]
fn heap_reports_zero_without_allocator() {
    assert_eq!(heap_free_bytes(), 0);
    assert_eq!(heap_used_bytes(), 0);
}

#[test]
fn host_build_reports_no_stack_use() {
    init_stack_watermark();
    assert_eq!(stack_free_bytes(), 0);
    assert_eq!(stack_used_bytes(), 0);
}

#[test]
fn stack_watermark_counts_painted_words_from_the_bottom() {
    let words = [STACK_PATTERN, STACK_PATTERN, 7, STACK_PATTERN];
    assert_eq!(stack_free_bytes_of(&words), 8);
    assert_eq!(stack_free_bytes_of(&[]), 0);
    assert_eq!(stack_used_bytes_of(0x2000_0000, 0x2000_0100, 8), 248);
    assert_eq!(stack_used_bytes_of(0x2000_0100, 0x2000_0000, 8), 0);
    assert_eq!(stack_paint_end(0x2000_0403), 0x2000_0200);
    assert_eq!(stack_paint_end(100), 0);
    assert_eq!(align_up(0x2000_0001, 4), 0x2000_0004);
    assert_eq!(align_up(8, 8), 8);
    assert_eq!(saturating_usize_to_u32(usize::MAX), u32::MAX);
}

#[test]
fn align_up_takes_any_power_of_two() {
    assert_eq!(align_up(0x13, 16), 0x20);
    assert_eq!(align_up(5, 64), 64);
    assert_eq!(align_up(0x1000, 0x1000), 0x1000);
    assert_eq!(align_up(1, 1), 1);
}
