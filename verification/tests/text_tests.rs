use water_monitor::get_phone_numbers;

#[test]
fn splits_on_commas() {
    assert_eq!(get_phone_numbers("111,222,333"), vec!["111", "222", "333"]);
}

#[test]
fn trims_whitespace_around_entries() {
    assert_eq!(get_phone_numbers(" 111 ,\t222 , 333\n"), vec!["111", "222", "333"]);
}

#[test]
fn single_entry_without_comma() {
    assert_eq!(get_phone_numbers("+15550100"), vec!["+15550100"]);
}

#[test]
fn empty_string_is_one_empty_entry() {
    assert_eq!(get_phone_numbers(""), vec![""]);
}

#[test]
fn whitespace_only_trims_to_empty() {
    assert_eq!(get_phone_numbers("   "), vec![""]);
}

#[test]
fn trailing_comma_keeps_an_empty_field() {
    assert_eq!(get_phone_numbers("111,"), vec!["111", ""]);
}

#[test]
fn inner_whitespace_is_kept() {
    assert_eq!(get_phone_numbers(" 11 1 ,222"), vec!["11 1", "222"]);
}
