use select_option::cell::select_option_id_from_data;
use select_option::option::{
    CellDataSerde, MultiSelectDescription, SelectOption, SingleSelectDescription,
};

#[test]
fn selection_description_test() {
    let description = SingleSelectDescription::default();
    assert_eq!(description.serialize_cell_data("1,2,3").unwrap(), "1".to_owned());

    let description = MultiSelectDescription::default();
    assert_eq!(description.serialize_cell_data("1,2,3").unwrap(), "1,2,3".to_owned());
}

#[test]
fn multi_select_stores_raw_value_unchanged() {
    let description = MultiSelectDescription::default();
    for raw in ["", "1", ",", "a,,b", " x , y ", "é,ü"] {
        assert_eq!(description.serialize_cell_data(raw).unwrap(), raw.to_owned());
    }
}

#[test]
fn single_select_keeps_part_before_first_comma() {
    let description = SingleSelectDescription::default();
    assert_eq!(description.serialize_cell_data("abc,def").unwrap(), "abc");
    assert_eq!(description.serialize_cell_data(",abc").unwrap(), "");
    assert_eq!(description.serialize_cell_data("abc,").unwrap(), "abc");
    assert_eq!(description.serialize_cell_data(" a , b").unwrap(), " a ");
    assert_eq!(description.serialize_cell_data("é,ü").unwrap(), "é");
    assert_eq!(description.serialize_cell_data("no comma").unwrap(), "no comma");
}

#[test]
fn single_select_of_empty_is_empty() {
    let description = SingleSelectDescription::default();
    assert_eq!(description.serialize_cell_data("").unwrap(), "");
    assert_eq!(select_option_id_from_data(String::new(), true), "");
}

#[test]
fn list_of_three_ids() {
    assert_eq!(select_option_id_from_data("1,2,3".to_owned(), true), "1");
    assert_eq!(select_option_id_from_data("1,2,3".to_owned(), false), "1,2,3");
}

#[test]
fn single_id() {
    assert_eq!(select_option_id_from_data("1".to_owned(), true), "1");
    assert_eq!(select_option_id_from_data("1".to_owned(), false), "1");
    let single = SingleSelectDescription::default();
    let multi = MultiSelectDescription::default();
    assert_eq!(single.serialize_cell_data("1").unwrap(), "1");
    assert_eq!(multi.serialize_cell_data("1").unwrap(), "1");
}

#[test]
fn reading_a_cell_returns_stored_value() {
    let single = SingleSelectDescription::default();
    let multi = MultiSelectDescription::default();
    for stored in ["", "1", "1,2,3", " a , b "] {
        assert_eq!(single.deserialize_cell_data(stored.to_owned()), stored);
        assert_eq!(multi.deserialize_cell_data(stored.to_owned()), stored);
    }
}

#[test]
fn new_option_has_fresh_uuid_and_no_color() {
    let first = SelectOption::new("Red");
    let second = SelectOption::new("Red");
    assert!(!first.id.is_empty());
    assert_eq!(first.id.len(), 36);
    assert_ne!(first.id, second.id);
    assert_eq!(first.name, "Red");
    assert_eq!(first.color, "");
    for (i, c) in first.id.chars().enumerate() {
        if i == 8 || i == 13 || i == 18 || i == 23 {
            assert_eq!(c, '-');
        } else {
            assert!(c.is_ascii_digit() || ('a'..='f').contains(&c));
        }
    }
}

#[test]
fn option_with_given_id() {
    let option = SelectOption::with_id("opt-1".to_owned(), "Green");
    assert_eq!(option.id, "opt-1");
    assert_eq!(option.name, "Green");
    assert_eq!(option.color, "");
}

#[test]
fn default_configurations_are_empty() {
    let single = SingleSelectDescription::default();
    assert!(single.options.is_empty());
    assert!(!single.disable_color);
    let multi = MultiSelectDescription::default();
    assert!(multi.options.is_empty());
    assert!(!multi.disable_color);
}
