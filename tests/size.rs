use redis_alloc::size::calculate_size;

#[test]
fn five_bytes_align_eight_rounds_to_eight() {
    assert_eq!(calculate_size(5, 8), 8);
}

#[test]
fn sixteen_bytes_align_eight_stays_sixteen() {
    assert_eq!(calculate_size(16, 8), 16);
}

#[test]
fn one_byte_align_one_stays_one() {
    assert_eq!(calculate_size(1, 1), 1);
}

#[test]
fn seventeen_bytes_align_sixteen_rounds_to_thirty_two() {
    assert_eq!(calculate_size(17, 16), 32);
}

#[test]
fn result_is_a_multiple_within_one_alignment() {
    for k in 0..12u32 {
        let align: usize = 1 << k;
        for size in 0..300usize {
            let r = calculate_size(size, align);
            assert_eq!(r % align, 0);
            assert!(size <= r && r < size + align);
        }
    }
}

#[test]
fn alignment_one_keeps_every_size() {
    for size in [0usize, 1, 2, 3, 7, 1000, 4097, usize::MAX] {
        assert_eq!(calculate_size(size, 1), size);
    }
}

#[test]
fn zero_size_stays_zero() {
    for k in 0..usize::BITS {
        assert_eq!(calculate_size(0, 1usize << k), 0);
    }
}

#[test]
fn multiples_are_left_unchanged() {
    assert_eq!(calculate_size(64, 16), 64);
    assert_eq!(calculate_size(4096, 4096), 4096);
    let once = calculate_size(100, 32);
    assert_eq!(once, 128);
    assert_eq!(calculate_size(once, 32), once);
}

#[test]
fn largest_size_that_fits_the_word() {
    let align: usize = 4096;
    let size = usize::MAX - (align - 1);
    assert_eq!(calculate_size(size, align), size);
    assert_eq!(calculate_size(usize::MAX - 4095 - 4095, align), usize::MAX - 4095);
}
