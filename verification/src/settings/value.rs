//! Values of settings and their text form in the settings table.
use vstd::prelude::*;
use crate::text::{bool_text, int_decimal, parse_bool_spec, parse_i64_spec, parse_bool, parse_i64, bool_to_string, i64_to_string, lemma_parse_int_decimal};

verus! {

/// The value of a setting. The variant of the default value of an entry
/// fixes the type of that setting.
#[derive(Debug)]
pub enum SettingValueType {
    Bool(Option<bool>),
    Int(Option<i64>),
    String(Option<String>),
}

/// The mathematical form of a setting value: strings by their characters.
pub enum SettingValue {
    Bool(Option<bool>),
    Int(Option<i64>),
    Text(Option<Seq<char>>),
}

impl View for SettingValueType {
    type V = SettingValue;

    open spec fn view(&self) -> SettingValue {
        match self {
            SettingValueType::Bool(v) => SettingValue::Bool(*v),
            SettingValueType::Int(v) => SettingValue::Int(*v),
            SettingValueType::String(v) => SettingValue::Text(opt_view(*v)),
        }
    }
}

/// The characters of an optional string.
pub open spec fn opt_view(v: Option<String>) -> Option<Seq<char>> {
    match v {
        Some(s) => Some(s@),
        None => None,
    }
}

/// The text stored in the settings table for a value; `None` for an unset
/// value.
pub open spec fn value_text(v: SettingValue) -> Option<Seq<char>> {
    match v {
        SettingValue::Bool(Some(b)) => Some(bool_text(b)),
        SettingValue::Int(Some(i)) => Some(int_decimal(i as int)),
        SettingValue::Text(Some(s)) => Some(s),
        _ => None,
    }
}

/// Whether two values have the same variant (the same setting type).
pub open spec fn same_kind(a: SettingValue, b: SettingValue) -> bool {
    match (a, b) {
        (SettingValue::Bool(_), SettingValue::Bool(_)) => true,
        (SettingValue::Int(_), SettingValue::Int(_)) => true,
        (SettingValue::Text(_), SettingValue::Text(_)) => true,
        _ => false,
    }
}

/// The value of the variant of `kind` read from the stored text `text`.
pub open spec fn convert_spec(kind: SettingValue, text: Option<Seq<char>>) -> SettingValue {
    match kind {
        SettingValue::Bool(_) => SettingValue::Bool(
            match text {
                Some(t) => parse_bool_spec(t),
                None => None,
            },
        ),
        SettingValue::Int(_) => SettingValue::Int(
            match text {
                Some(t) => parse_i64_spec(t),
                None => None,
            },
        ),
        SettingValue::Text(_) => SettingValue::Text(text),
    }
}

impl Clone for SettingValueType {
    fn clone(&self) -> (r: Self)
        ensures
            r == *self,
    {
        match self {
            SettingValueType::Bool(v) => SettingValueType::Bool(*v),
            SettingValueType::Int(v) => SettingValueType::Int(*v),
            SettingValueType::String(v) => SettingValueType::String(
                match v {
                    Some(s) => Some(s.clone()),
                    None => None,
                },
            ),
        }
    }
}

impl SettingValueType {
    /// Reads a value of the same variant as `self` from the stored text
    /// `value`: `true`/`false` for a `Bool`, a decimal `i64` for an `Int`,
    /// the text itself for a `String`. Text that does not parse gives the
    /// variant with `None`.
    pub fn converter(&self, value: Option<String>) -> (r: Self)
        ensures
            r@ == convert_spec(self@, opt_view(value)),
    {
        match self {
            SettingValueType::Bool(_) => SettingValueType::Bool(
                match value {
                    Some(v) => parse_bool(v.as_str()),
                    None => None,
                },
            ),
            SettingValueType::Int(_) => SettingValueType::Int(
                match value {
                    Some(v) => parse_i64(v.as_str()),
                    None => None,
                },
            ),
            SettingValueType::String(_) => SettingValueType::String(value),
        }
    }

    /// Consumes the value and assigns `v` to the consumed copy: nothing that
    /// a caller holds changes.
    #[allow(unused_assignments, unused_variables)]
    pub fn set(self, v: SettingValueType) {
        let mut this = self;
        this = v;
    }

    /// The text of the value as it is stored in the settings table: `None`
    /// for an unset value.
    pub fn to_opt_string(self) -> (r: Option<String>)
        ensures
            match r {
                Some(s) => value_text(self@) == Some(s@),
                None => value_text(self@) is None,
            },
    {
        match self {
            SettingValueType::Bool(v) => match v {
                Some(b) => Some(bool_to_string(b)),
                None => None,
            },
            SettingValueType::Int(v) => match v {
                Some(i) => Some(i64_to_string(i)),
                None => None,
            },
            SettingValueType::String(v) => v,
        }
    }

    /// The `bool` held by a `Bool` value; `None` for other variants.
    pub fn as_bool(self) -> (r: Option<bool>)
        ensures
            r == match self {
                SettingValueType::Bool(v) => v,
                _ => None,
            },
    {
        if let SettingValueType::Bool(v) = self {
            v
        } else {
            None
        }
    }

    /// The `i64` held by an `Int` value; `None` for other variants.
    pub fn as_int(self) -> (r: Option<i64>)
        ensures
            r == match self {
                SettingValueType::Int(v) => v,
                _ => None,
            },
    {
        if let SettingValueType::Int(v) = self {
            v
        } else {
            None
        }
    }

    /// The string held by a `String` value; `None` for other variants.
    pub fn as_string(self) -> (r: Option<String>)
        ensures
            r == match self {
                SettingValueType::String(v) => v,
                _ => None,
            },
    {
        if let SettingValueType::String(v) = self {
            v
        } else {
            None
        }
    }
}

impl From<bool> for SettingValueType {
    /// A set `Bool`.
    fn from(value: bool) -> (r: Self)
        ensures
            r == SettingValueType::Bool(Some(value)),
    {
        SettingValueType::Bool(Some(value))
    }
}

impl vstd::std_specs::convert::FromSpecImpl<bool> for SettingValueType {
    open spec fn obeys_from_spec() -> bool {
        true
    }

    open spec fn from_spec(value: bool) -> SettingValueType {
        SettingValueType::Bool(Some(value))
    }
}

impl From<i64> for SettingValueType {
    /// A set `Int`.
    fn from(value: i64) -> (r: Self)
        ensures
            r == SettingValueType::Int(Some(value)),
    {
        SettingValueType::Int(Some(value))
    }
}

impl vstd::std_specs::convert::FromSpecImpl<i64> for SettingValueType {
    open spec fn obeys_from_spec() -> bool {
        true
    }

    open spec fn from_spec(value: i64) -> SettingValueType {
        SettingValueType::Int(Some(value))
    }
}

impl From<String> for SettingValueType {
    /// A set `String`.
    fn from(value: String) -> (r: Self)
        ensures
            r == SettingValueType::String(Some(value)),
    {
        SettingValueType::String(Some(value))
    }
}

impl vstd::std_specs::convert::FromSpecImpl<String> for SettingValueType {
    open spec fn obeys_from_spec() -> bool {
        true
    }

    open spec fn from_spec(value: String) -> SettingValueType {
        SettingValueType::String(Some(value))
    }
}

impl From<Option<bool>> for SettingValueType {
    /// A `Bool`, unset for `None`.
    fn from(value: Option<bool>) -> (r: Self)
        ensures
            r == SettingValueType::Bool(value),
    {
        SettingValueType::Bool(value)
    }
}

impl vstd::std_specs::convert::FromSpecImpl<Option<bool>> for SettingValueType {
    open spec fn obeys_from_spec() -> bool {
        true
    }

    open spec fn from_spec(value: Option<bool>) -> SettingValueType {
        SettingValueType::Bool(value)
    }
}

impl From<Option<i64>> for SettingValueType {
    /// An `Int`, unset for `None`.
    fn from(value: Option<i64>) -> (r: Self)
        ensures
            r == SettingValueType::Int(value),
    {
        SettingValueType::Int(value)
    }
}

impl vstd::std_specs::convert::FromSpecImpl<Option<i64>> for SettingValueType {
    open spec fn obeys_from_spec() -> bool {
        true
    }

    open spec fn from_spec(value: Option<i64>) -> SettingValueType {
        SettingValueType::Int(value)
    }
}

impl From<Option<String>> for SettingValueType {
    /// A `String`, unset for `None`.
    fn from(value: Option<String>) -> (r: Self)
        ensures
            r == SettingValueType::String(value),
    {
        SettingValueType::String(value)
    }
}

impl vstd::std_specs::convert::FromSpecImpl<Option<String>> for SettingValueType {
    open spec fn obeys_from_spec() -> bool {
        true
    }

    open spec fn from_spec(value: Option<String>) -> SettingValueType {
        SettingValueType::String(value)
    }
}

impl From<SettingValueType> for Option<bool> {
    /// The `bool` of a `Bool`; `None` for other variants.
    fn from(value: SettingValueType) -> (r: Self)
        ensures
            r == match value {
                SettingValueType::Bool(v) => v,
                _ => None,
            },
    {
        match value {
            SettingValueType::Bool(v) => v,
            _ => None,
        }
    }
}

impl vstd::std_specs::convert::FromSpecImpl<SettingValueType> for Option<bool> {
    open spec fn obeys_from_spec() -> bool {
        true
    }

    open spec fn from_spec(value: SettingValueType) -> Option<bool> {
        match value {
            SettingValueType::Bool(v) => v,
            _ => None,
        }
    }
}

impl From<SettingValueType> for Option<i64> {
    /// The `i64` of an `Int`; `None` for other variants.
    fn from(value: SettingValueType) -> (r: Self)
        ensures
            r == match value {
                SettingValueType::Int(v) => v,
                _ => None,
            },
    {
        match value {
            SettingValueType::Int(v) => v,
            _ => None,
        }
    }
}

impl vstd::std_specs::convert::FromSpecImpl<SettingValueType> for Option<i64> {
    open spec fn obeys_from_spec() -> bool {
        true
    }

    open spec fn from_spec(value: SettingValueType) -> Option<i64> {
        match value {
            SettingValueType::Int(v) => v,
            _ => None,
        }
    }
}

impl From<SettingValueType> for Option<String> {
    /// The string of a `String`; `None` for other variants.
    fn from(value: SettingValueType) -> (r: Self)
        ensures
            r == match value {
                SettingValueType::String(v) => v,
                _ => None,
            },
    {
        match value {
            SettingValueType::String(v) => v,
            _ => None,
        }
    }
}

impl vstd::std_specs::convert::FromSpecImpl<SettingValueType> for Option<String> {
    open spec fn obeys_from_spec() -> bool {
        true
    }

    open spec fn from_spec(value: SettingValueType) -> Option<String> {
        match value {
            SettingValueType::String(v) => v,
            _ => None,
        }
    }
}

/// Storing a value as text and reading it back with an entry whose default
/// has the same variant gives back an equal value.
pub proof fn lemma_value_text_round_trip(kind: SettingValue, v: SettingValue)
    requires
        same_kind(kind, v),
    ensures
        convert_spec(kind, value_text(v)) == v,
{
    match v {
        SettingValue::Bool(Some(b)) => {
            reveal_strlit("true");
            reveal_strlit("false");
        },
        SettingValue::Int(Some(i)) => {
            lemma_parse_int_decimal(i);
        },
        _ => {},
    }
}

} // verus!
