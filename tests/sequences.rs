use thue_morse_sequence::{EvilNumberIterator, OdiousNumberIterator, ThueMorseProvider};

#[test]
fn test_r2n8_binary() {
    let provider = ThueMorseProvider::new(2);
    assert_eq!(0, provider.get_value(0));
    assert_eq!(1, provider.get_value(1));
    assert_eq!(1, provider.get_value(2));
    assert_eq!(0, provider.get_value(3));
    assert_eq!(1, provider.get_value(4));
    assert_eq!(0, provider.get_value(5));
    assert_eq!(0, provider.get_value(6));
    assert_eq!(1, provider.get_value(7));
}

#[test]
fn test_w8m2_trinary() {
    let expected_values = [
        0u32, 1, 2, 1, 2, 0, 2, 0, 1, 1, 2, 0, 2, 0, 1, 0, 1, 2, 2, 0, 1, 0, 1, 2, 1, 2, 0,
    ];
    let mut iterator = ThueMorseProvider::new(3).into_iter();
    for expected_value in expected_values {
        let actual_value = iterator.next().unwrap();
        println!("comparing {} to {}", actual_value, expected_value);
        assert_eq!(expected_value, actual_value);
    }
}

#[test]
fn test_j1v5_five() {
    let expected_values = [
        0, 1, 2, 3, 4, 1, 2, 3, 4, 0, 2, 3, 4, 0, 1, 3, 4, 0, 1, 2, 4, 0, 1, 2, 3, 1, 2, 3, 4, 0,
    ];
    let mut iterator = ThueMorseProvider::new(5).into_iter();
    for expected_value in expected_values {
        let actual_value = iterator.next().unwrap();
        println!("comparing {} to {}", actual_value, expected_value);
        assert_eq!(expected_value, actual_value);
    }
}

#[test]
fn test_u6x9_evil_numbers() {
    let expected_values = [0, 3, 5, 6, 9, 10, 12, 15, 17, 18, 20, 23, 24, 27, 29, 30, 33, 34, 36, 39];
    let mut iterator = EvilNumberIterator::new();
    for expected_value in expected_values {
        let actual_value = iterator.next().unwrap();
        println!("comparing {} to {}", actual_value, expected_value);
        assert_eq!(expected_value, actual_value);
    }
}

#[test]
fn test_q5p8_odious_numbers() {
    let expected_values = [1, 2, 4, 7, 8, 11, 13, 14, 16, 19, 21, 22, 25, 26, 28, 31, 32, 35, 37, 38];
    let mut iterator = OdiousNumberIterator::new();
    for expected_value in expected_values {
        let actual_value = iterator.next().unwrap();
        println!("comparing {} to {}", actual_value, expected_value);
        assert_eq!(expected_value, actual_value);
    }
}
