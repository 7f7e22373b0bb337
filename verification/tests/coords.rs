use martin::coords::{checked_flip_y, flip_y, Xyz};

#[test]
fn flip_y_values() {
    assert_eq!(flip_y(0, 0), 0);
    assert_eq!(flip_y(1, 0), 1);
    assert_eq!(flip_y(1, 1), 0);
    assert_eq!(flip_y(6, 20), 43);
    assert_eq!(flip_y(22, 0), 4_194_303);
    assert_eq!(flip_y(31, 2_147_483_647), 0);
}

#[test]
fn flip_y_twice_is_identity() {
    for z in 0u8..=22 {
        let size: u32 = 1 << z;
        for y in [0, size / 3, size / 2, size - 1] {
            assert_eq!(flip_y(z, flip_y(z, y)), y);
        }
    }
}

#[test]
fn checked_flip_y_in_and_out_of_grid() {
    assert_eq!(checked_flip_y(2, 1), Some(2));
    assert_eq!(checked_flip_y(2, 3), Some(0));
    assert_eq!(checked_flip_y(2, 4), None);
    assert_eq!(checked_flip_y(0, 1), None);
    assert_eq!(checked_flip_y(31, u32::MAX), None);
    assert_eq!(checked_flip_y(32, 0), None);
    assert_eq!(checked_flip_y(255, 0), None);
}

#[test]
fn xyz_in_grid() {
    assert!(Xyz { z: 0, x: 0, y: 0 }.is_in_grid());
    assert!(Xyz { z: 3, x: 7, y: 7 }.is_in_grid());
    assert!(!Xyz { z: 3, x: 8, y: 0 }.is_in_grid());
    assert!(!Xyz { z: 3, x: 0, y: 8 }.is_in_grid());
    assert!(!Xyz { z: 32, x: 0, y: 0 }.is_in_grid());
    assert!(Xyz { z: 31, x: 2_147_483_647, y: 0 }.is_in_grid());
}

#[test]
fn xyz_tms_row() {
    assert_eq!(Xyz { z: 3, x: 5, y: 2 }.tms_row(), 5);
    assert_eq!(Xyz { z: 0, x: 0, y: 0 }.tms_row(), 0);
}
