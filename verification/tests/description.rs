use permission_atom::decimal::decimal_string;
use permission_atom::mode::{permission_bits_of, PERMISSION_MASK, REGULAR_FILE};
use permission_atom::{Atom, FilePermissions};

#[test]
fn description_names_path_and_mode() {
    let atom = FilePermissions::new(String::from("/tmp/dir/644"), 0o644);
    assert_eq!("The permissions on /tmp/dir/644 need to be set to 420", atom.to_string());
}

#[test]
fn description_of_the_smallest_and_largest_mode() {
    let none = FilePermissions::new(String::from("a"), 0);
    assert_eq!("The permissions on a need to be set to 0", none.to_string());
    let all = FilePermissions::new(String::from("relative/b c"), 0o7777);
    assert_eq!("The permissions on relative/b c need to be set to 4095", all.to_string());
}

#[test]
fn description_keeps_an_empty_or_unusual_path() {
    let empty = FilePermissions::new(String::new(), 0o755);
    assert_eq!("The permissions on  need to be set to 493", empty.to_string());
    let unusual = FilePermissions::new(String::from("/données/ü"), 0o640);
    assert_eq!("The permissions on /données/ü need to be set to 416", unusual.to_string());
}

#[test]
fn description_does_not_change_the_atom() {
    let atom = FilePermissions::new(String::from("/etc/motd"), 0o600);
    let first = atom.to_string();
    let second = atom.to_string();
    assert_eq!(first, second);
    assert_eq!("/etc/motd", atom.get_path());
}

#[test]
fn path_is_kept_as_given() {
    let atom = FilePermissions::new(String::from("some/relative/path"), 0o644);
    assert_eq!("some/relative/path", atom.get_path().as_str());
}

#[test]
fn decimal_notation_of_single_digits() {
    let expected = ["0", "1", "2", "3", "4", "5", "6", "7", "8", "9"];
    let mut n: u32 = 0;
    while n < 10 {
        assert_eq!(expected[n as usize], decimal_string(n));
        n += 1;
    }
}

#[test]
fn decimal_notation_of_larger_numbers() {
    assert_eq!("10", decimal_string(10));
    assert_eq!("99", decimal_string(99));
    assert_eq!("100", decimal_string(100));
    assert_eq!("420", decimal_string(0o644));
    assert_eq!("1009", decimal_string(1009));
    assert_eq!("4095", decimal_string(0o7777));
    assert_eq!("4294967295", decimal_string(u32::MAX));
}

#[test]
fn decimal_notation_agrees_with_the_standard_one() {
    let mut n: u32 = 0;
    while n < 5000 {
        assert_eq!(format!("{}", n), decimal_string(n));
        n += 1;
    }
}

#[test]
fn permission_bits_drop_the_file_type() {
    assert_eq!(0o644, permission_bits_of(0o100644));
    assert_eq!(0o755, permission_bits_of(0o040755));
    assert_eq!(0o4755, permission_bits_of(0o104755));
    assert_eq!(0, permission_bits_of(0o100000));
    assert_eq!(0o7777, permission_bits_of(u32::MAX));
    assert_eq!(0o644, permission_bits_of(REGULAR_FILE + 0o644));
    assert_eq!(0o7777, PERMISSION_MASK);
    assert_eq!(0o100000, REGULAR_FILE);
}
