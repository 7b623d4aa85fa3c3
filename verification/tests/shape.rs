use zarrs_n5::data_type::N5DataType;
use zarrs_n5::shape::{all_fit, chunk_fits, copy_of, count_elements, no_extent_is_zero, reversed};

#[test]
fn chunks_that_can_be_held_fit() {
    assert!(chunk_fits(&[], N5DataType::Float64));
    assert!(chunk_fits(&[3, 4], N5DataType::Float32));
    assert!(chunk_fits(&[1 << 20, 1 << 20, 1 << 10], N5DataType::UInt8));
}

#[test]
fn chunks_with_an_extent_of_zero_do_not_fit() {
    assert!(!chunk_fits(&[0], N5DataType::UInt8));
    assert!(!chunk_fits(&[3, 0, 4], N5DataType::Float32));
    assert!(!chunk_fits(&[u64::MAX, u64::MAX, 0], N5DataType::Float32));
}

#[test]
fn the_bound_is_half_of_the_address_space() {
    let half = (usize::MAX / 2) as u64;
    assert!(chunk_fits(&[half], N5DataType::UInt8));
    assert!(!chunk_fits(&[half + 1], N5DataType::UInt8));
    assert!(chunk_fits(&[half / 8], N5DataType::Float64));
    assert!(!chunk_fits(&[half / 8 + 1], N5DataType::Float64));
    assert!(chunk_fits(&[half / 4, 1, 1], N5DataType::Int32));
    assert!(!chunk_fits(&[half / 4, 2], N5DataType::Int32));
    assert!(!chunk_fits(&[u64::MAX, u64::MAX], N5DataType::UInt8));
}

#[test]
fn counts_and_weights_are_held_against_the_limit() {
    assert!(all_fit(&[3, 4], 2, 24));
    assert!(!all_fit(&[3, 4], 2, 23));
    assert!(all_fit(&[3, 4], 0, 12));
    assert!(!all_fit(&[3, 4], 0, 11));
    assert!(all_fit(&[], 5, 5));
    assert!(!all_fit(&[], 5, 4));
    assert!(!all_fit(&[], 0, 0));
    assert!(!all_fit(&[2, 0], 1, 100));
    assert!(all_fit(&[u64::MAX], 1, u64::MAX));
    assert!(!all_fit(&[u64::MAX, 2], 1, u64::MAX));
}

#[test]
fn shapes_are_walked() {
    assert!(no_extent_is_zero(&[]));
    assert!(no_extent_is_zero(&[1, 2]));
    assert!(!no_extent_is_zero(&[1, 0, 2]));
    assert_eq!(count_elements(&[]), 1);
    assert_eq!(count_elements(&[3, 4, 5]), 60);
    assert_eq!(reversed(&[1, 2, 3]), vec![3, 2, 1]);
    assert_eq!(copy_of(&[1u8, 2, 3]), vec![1, 2, 3]);
}
