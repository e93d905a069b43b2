use rpi_kernel::bump_allocator::{aligned_addr_unchecked, is_power_of_two_exec, valid_layout};
use rpi_kernel::common::{align_down, align_up, is_aligned, region_size_shifted, size_human_readable_ceil};

#[test]
fn aligned_values_are_recognised() {
    assert!(is_aligned(0x1000, 0x1000));
    assert!(is_aligned(0, 8));
    assert!(!is_aligned(0x1001, 0x1000));
    assert!(!is_aligned(4, 8));
}

#[test]
fn align_down_rounds_to_previous_multiple() {
    assert_eq!(align_down(0x1234, 0x1000), 0x1000);
    assert_eq!(align_down(0x1000, 0x1000), 0x1000);
    assert_eq!(align_down(0xFFF, 0x1000), 0);
    assert_eq!(align_down(0x3F20_1234, 0x1_0000), 0x3F20_0000);
}

#[test]
fn align_up_rounds_to_next_multiple() {
    assert_eq!(align_up(0x1234, 0x1000), 0x2000);
    assert_eq!(align_up(0x2000, 0x1000), 0x2000);
    assert_eq!(align_up(0, 16), 0);
    assert_eq!(align_up(1, 16), 16);
    assert_eq!(align_up(usize::MAX, 1), usize::MAX);
    assert_eq!(align_up(usize::MAX - 15, 16), usize::MAX - 15);
}

#[test]
fn size_human_readable_ceil_picks_largest_unit() {
    assert_eq!(size_human_readable_ceil(0), (0, "Byte"));
    assert_eq!(size_human_readable_ceil(1023), (1023, "Byte"));
    assert_eq!(size_human_readable_ceil(1024), (1, "KiB"));
    assert_eq!(size_human_readable_ceil(1025), (2, "KiB"));
    assert_eq!(size_human_readable_ceil(64 * 1024), (64, "KiB"));
    assert_eq!(size_human_readable_ceil(1024 * 1024), (1, "MiB"));
    assert_eq!(size_human_readable_ceil(3 * 1024 * 1024 + 1), (4, "MiB"));
    assert_eq!(size_human_readable_ceil(1024 * 1024 * 1024), (1, "GiB"));
    assert_eq!(size_human_readable_ceil(1024 * 1024 * 1024 + 1), (2, "GiB"));
}

#[test]
fn region_sizes_in_units() {
    assert_eq!(region_size_shifted(0, 0x7_FFFF, 10), 512);
    assert_eq!(region_size_shifted(0x0020_0000, 0x005F_FFFF, 20), 4);
    assert_eq!(region_size_shifted(0x3F00_0000, 0x3FFF_FFFF, 20), 16);
    assert_eq!(region_size_shifted(0x8_0000, 0x8_03FF, 10), 1);
    assert_eq!(region_size_shifted(0x8_0000, 0x8_03FE, 10), 0);
}

#[test]
fn aligned_addr_rounds_up() {
    assert_eq!(aligned_addr_unchecked(0x1001, 0x1000), 0x2000);
    assert_eq!(aligned_addr_unchecked(0x2000, 0x1000), 0x2000);
    assert_eq!(aligned_addr_unchecked(7, 8), 8);
}

#[test]
fn powers_of_two_are_recognised() {
    assert!(is_power_of_two_exec(1));
    assert!(is_power_of_two_exec(2));
    assert!(is_power_of_two_exec(4096));
    assert!(is_power_of_two_exec(1usize << (usize::BITS - 1)));
    assert!(!is_power_of_two_exec(0));
    assert!(!is_power_of_two_exec(6));
    assert!(!is_power_of_two_exec(usize::MAX));
}

#[test]
fn layouts_are_checked_like_std() {
    assert!(valid_layout(16, 8));
    assert!(!valid_layout(16, 3));
    assert!(!valid_layout(16, 0));
    assert!(valid_layout(isize::MAX as usize, 1));
    assert!(!valid_layout(isize::MAX as usize, 2));
    assert!(valid_layout(isize::MAX as usize - 1, 2));
}
