//! The pure parts of output shaping: how a device state renders to text and
//! how a state is looked up by name for the device table.
//!
//! Laying results out as JSON or as a drawn table belongs to the rendering
//! layer outside this crate; what is verified here is the text each state
//! value yields and the lookup of a state by its well-known name, padded to
//! the table's minimum column width.

use vstd::prelude::*;

use crate::text::bool_str_spec;
use crate::text::bool_to_string;
use crate::text::i64_to_decimal;
use crate::text::int_decimal_spec;
use crate::text::str_eq;

verus! {

/// How results are presented: machine-readable JSON or a drawn table.
#[derive(Clone, Copy, Debug, PartialEq, Eq, PartialOrd, Ord, Structural)]
pub enum OutputStyle {
    Json,
    Table,
}

/// A device state's value as reported by the gateway. The core reads only
/// the variant tag of composite values; their contents never reach the
/// user-facing table.
#[derive(Debug)]
pub enum DeviceStateValue {
    String(String),
    Int(i64),
    Mapping,
    Array,
    Boolean(bool),
}

impl Clone for DeviceStateValue {
    fn clone(&self) -> (r: Self)
        ensures
            r == *self,
    {
        match self {
            DeviceStateValue::String(s) => DeviceStateValue::String(s.clone()),
            DeviceStateValue::Int(i) => DeviceStateValue::Int(*i),
            DeviceStateValue::Mapping => DeviceStateValue::Mapping,
            DeviceStateValue::Array => DeviceStateValue::Array,
            DeviceStateValue::Boolean(b) => DeviceStateValue::Boolean(*b),
        }
    }
}

/// One named state of a device, such as its open/closed state or closure
/// percentage.
#[derive(Debug)]
pub struct DeviceState {
    pub value: DeviceStateValue,
    pub name: String,
    pub state_type: i64,
}

impl Clone for DeviceState {
    fn clone(&self) -> (r: Self)
        ensures
            r == *self,
    {
        DeviceState { value: self.value.clone(), name: self.name.clone(), state_type: self.state_type }
    }
}

/// A value with a human-friendly single-line text form.
pub trait HumanFriendly {
    /// The text this value renders to.
    spec fn human_friendly(&self) -> Seq<char>;

    /// Render the value for display.
    fn to_human_friendly_string(&self) -> (s: String)
        ensures
            s@ == self.human_friendly(),
    ;
}

impl HumanFriendly for DeviceStateValue {
    open spec fn human_friendly(&self) -> Seq<char> {
        match self {
            DeviceStateValue::String(s) => s@,
            DeviceStateValue::Int(i) => int_decimal_spec(*i as int),
            DeviceStateValue::Mapping => "Map"@,
            DeviceStateValue::Array => "Array"@,
            DeviceStateValue::Boolean(b) => bool_str_spec(*b),
        }
    }

    fn to_human_friendly_string(&self) -> (s: String) {
        match self {
            DeviceStateValue::String(s) => s.clone(),
            DeviceStateValue::Int(i) => i64_to_decimal(*i),
            DeviceStateValue::Mapping => "Map".to_owned(),
            DeviceStateValue::Array => "Array".to_owned(),
            DeviceStateValue::Boolean(b) => bool_to_string(*b),
        }
    }
}

/// The first state with the given name at or after position `i`, if any.
pub open spec fn find_state_from(s: Seq<DeviceState>, name: Seq<char>, i: int) -> Option<DeviceState>
    decreases s.len() - i,
{
    if i < 0 || i >= s.len() {
        None
    } else if s[i].name@ == name {
        Some(s[i])
    } else {
        find_state_from(s, name, i + 1)
    }
}

/// A string padded with spaces on the left to the table's minimum column
/// width of three characters.
pub open spec fn pad3_spec(s: Seq<char>) -> Seq<char> {
    if s.len() >= 3 {
        s
    } else if s.len() == 2 {
        seq![' '] + s
    } else if s.len() == 1 {
        seq![' ', ' '] + s
    } else {
        seq![' ', ' ', ' '] + s
    }
}

/// Pad a string with spaces on the left to at least three characters.
pub fn pad_left3(s: String) -> (r: String)
    ensures
        r@ == pad3_spec(s@),
{
    let len = s.as_str().unicode_len();
    if len >= 3 {
        s
    } else {
        proof {
            reveal_strlit(" ");
            reveal_strlit("  ");
            reveal_strlit("   ");
        }
        let mut r = if len == 2 {
            String::from_str(" ")
        } else if len == 1 {
            String::from_str("  ")
        } else {
            String::from_str("   ")
        };
        r.append(s.as_str());
        proof {
            assert(r@ =~= pad3_spec(s@));
        }
        r
    }
}

/// A collection whose elements can be looked up by a name.
pub trait Searchable<T> {
    /// The element the lookup finds, if any.
    spec fn found_by_name(&self, name: Seq<char>) -> Option<T>;

    /// The display text the lookup renders, padded for the table.
    spec fn value_of_name(&self, name: Seq<char>) -> Seq<char>;

    /// Find the first element carrying the given name.
    fn find_by_name(&self, name: &str) -> (r: Option<T>)
        ensures
            r == self.found_by_name(name@),
    ;

    /// The display text of the named element — empty if absent — padded to
    /// the table's minimum column width.
    fn value_from_name(&self, name: &str) -> (r: String)
        ensures
            r@ == self.value_of_name(name@),
    ;
}

impl Searchable<DeviceState> for Vec<DeviceState> {
    open spec fn found_by_name(&self, name: Seq<char>) -> Option<DeviceState> {
        find_state_from(self@, name, 0)
    }

    open spec fn value_of_name(&self, name: Seq<char>) -> Seq<char> {
        pad3_spec(
            match find_state_from(self@, name, 0) {
                Some(ds) => ds.value.human_friendly(),
                None => Seq::empty(),
            },
        )
    }

    fn find_by_name(&self, name: &str) -> (r: Option<DeviceState>) {
        let n = self.len();
        let mut i: usize = 0;
        while i < n
            invariant
                n == self.len(),
                i <= n,
                find_state_from(self@, name@, 0) == find_state_from(self@, name@, i as int),
            decreases n - i,
        {
            if str_eq(self[i].name.as_str(), name) {
                return Some(self[i].clone());
            }
            i = i + 1;
        }
        None
    }

    fn value_from_name(&self, name: &str) -> (r: String) {
        let found = self.find_by_name(name);
        let val = match found {
            Some(ds) => ds.value.to_human_friendly_string(),
            None => String::new(),
        };
        pad_left3(val)
    }
}

} // verus!
