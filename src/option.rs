//! The options of a select field, and the two field configurations that
//! read and write cell values.

use crate::cell::{select_option_id_from_data, stored_cell_value};
use vstd::prelude::*;

verus! {

/// Whether `c` is a digit of lower-case hexadecimal.
pub open spec fn is_lower_hex_digit(c: char) -> bool {
    ('0' <= c && c <= '9') || ('a' <= c && c <= 'f')
}

/// Whether `s` is a UUID in hyphenated form: 32 lower-case hex digits in
/// groups of 8, 4, 4, 4 and 12, joined by `-`.
pub open spec fn is_hyphenated_uuid(s: Seq<char>) -> bool {
    &&& s.len() == 36
    &&& forall|i: int|
        0 <= i < 36 ==> if i == 8 || i == 13 || i == 18 || i == 23 {
            s[i] == '-'
        } else {
            is_lower_hex_digit(s[i])
        }
}

/// Relies on `uuid::Uuid::new_v4` for a random UUID, and on its `Display`,
/// which writes the hyphenated lower-case form.
#[verifier::external_body]
fn random_uuid_string() -> (r: String)
    ensures
        is_hyphenated_uuid(r@),
{
    uuid::Uuid::new_v4().to_string()
}

/// One choice that a select field offers.
#[derive(Clone, Debug)]
pub struct SelectOption {
    pub id: String,
    pub name: String,
    pub color: String,
}

impl SelectOption {
    /// A new option named `name`, with a freshly generated id and no color.
    pub fn new(name: &str) -> (r: SelectOption)
        ensures
            is_hyphenated_uuid(r.id@),
            r.id@.len() > 0,
            r.name@ == name@,
            r.color@.len() == 0,
    {
        let id = random_uuid_string();
        SelectOption::with_id(id, name)
    }

    /// An option with the given id and name, and no color.
    pub fn with_id(id: String, name: &str) -> (r: SelectOption)
        ensures
            r.id@ == id@,
            r.name@ == name@,
            r.color@.len() == 0,
    {
        SelectOption { id, name: name.to_owned(), color: String::new() }
    }
}

/// The failure that writing a cell value may report.
#[derive(Clone, Debug)]
pub struct CellDataError {
    pub message: String,
}

/// Reading and writing the cell values of a field.
pub trait CellDataSerde {
    /// Whether a cell of this field holds at most one option.
    spec fn is_single_select(&self) -> bool;

    /// The value shown for a stored cell value: the value itself.
    fn deserialize_cell_data(&self, data: String) -> (r: String)
        ensures
            r@ == data@,
    ;

    /// The value stored for a cell written as `data`.
    fn serialize_cell_data(&self, data: &str) -> (r: Result<String, CellDataError>)
        ensures
            r is Ok,
            r matches Ok(v) ==> v@ == stored_cell_value(data@, self.is_single_select()),
    ;
}

/// The configuration of a field whose cells hold at most one option.
#[derive(Clone, Debug)]
pub struct SingleSelectDescription {
    pub options: Vec<SelectOption>,
    pub disable_color: bool,
}

impl Default for SingleSelectDescription {
    fn default() -> (r: SingleSelectDescription)
        ensures
            r.options@.len() == 0,
            !r.disable_color,
    {
        SingleSelectDescription { options: Vec::new(), disable_color: false }
    }
}

impl CellDataSerde for SingleSelectDescription {
    open spec fn is_single_select(&self) -> bool {
        true
    }

    fn deserialize_cell_data(&self, data: String) -> (r: String) {
        data
    }

    fn serialize_cell_data(&self, data: &str) -> (r: Result<String, CellDataError>) {
        Ok(select_option_id_from_data(data.to_owned(), true))
    }
}

/// The configuration of a field whose cells hold any number of options.
#[derive(Clone, Debug)]
pub struct MultiSelectDescription {
    pub options: Vec<SelectOption>,
    pub disable_color: bool,
}

impl Default for MultiSelectDescription {
    fn default() -> (r: MultiSelectDescription)
        ensures
            r.options@.len() == 0,
            !r.disable_color,
    {
        MultiSelectDescription { options: Vec::new(), disable_color: false }
    }
}

impl CellDataSerde for MultiSelectDescription {
    open spec fn is_single_select(&self) -> bool {
        false
    }

    fn deserialize_cell_data(&self, data: String) -> (r: String) {
        data
    }

    fn serialize_cell_data(&self, data: &str) -> (r: Result<String, CellDataError>) {
        Ok(select_option_id_from_data(data.to_owned(), false))
    }
}

} // verus!
