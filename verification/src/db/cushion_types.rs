//! Conversions of values handed over by the book search scripts.
use vstd::prelude::*;
use crate::settings::value::opt_view;
use crate::text::string_views;

verus! {

/// A value produced by a mapping script, as far as the conversions read it:
/// a string, an array, or any other value.
#[derive(Debug)]
pub enum ScriptValue {
    Text(String),
    List(Vec<ScriptValue>),
    Other,
}

/// The non-empty strings among the elements of a script array, in order;
/// elements that are not strings count as empty.
pub open spec fn array_strings(items: Seq<ScriptValue>) -> Seq<Seq<char>>
    decreases items.len(),
{
    if items.len() == 0 {
        Seq::empty()
    } else {
        let prev = array_strings(items.drop_last());
        match items.last() {
            ScriptValue::Text(s) => if s@.len() == 0 {
                prev
            } else {
                prev.push(s@)
            },
            _ => prev,
        }
    }
}

/// An optional string read from a script value.
pub struct OptionString(pub Option<String>);

impl OptionString {
    /// The string of a string value; `None` for any other value.
    pub fn from_value(value: ScriptValue) -> (r: Self)
        ensures
            opt_view(r.0) == match value {
                ScriptValue::Text(s) => Some(s@),
                _ => None::<Seq<char>>,
            },
    {
        match value {
            ScriptValue::Text(s) => OptionString(Some(s)),
            _ => OptionString(None),
        }
    }

    /// The optional string held.
    pub fn into_option(self) -> (r: Option<String>)
        ensures
            r == self.0,
    {
        self.0
    }
}

impl From<Option<String>> for OptionString {
    fn from(value: Option<String>) -> (r: Self)
        ensures
            r.0 == value,
    {
        OptionString(value)
    }
}

impl vstd::std_specs::convert::FromSpecImpl<Option<String>> for OptionString {
    open spec fn obeys_from_spec() -> bool {
        true
    }

    open spec fn from_spec(v: Option<String>) -> OptionString {
        OptionString(v)
    }
}

impl From<OptionString> for Option<String> {
    fn from(value: OptionString) -> (r: Self)
        ensures
            r == value.0,
    {
        value.0
    }
}

impl vstd::std_specs::convert::FromSpecImpl<OptionString> for Option<String> {
    open spec fn obeys_from_spec() -> bool {
        true
    }

    open spec fn from_spec(v: OptionString) -> Option<String> {
        v.0
    }
}

/// A list of strings read from a script value.
pub struct VecString(pub Vec<String>);

impl VecString {
    /// The non-empty strings of an array value; an empty list for any other
    /// value.
    pub fn from_value(value: ScriptValue) -> (r: Self)
        ensures
            string_views(r.0@) == match value {
                ScriptValue::List(items) => array_strings(items@),
                _ => Seq::<Seq<char>>::empty(),
            },
    {
        match value {
            ScriptValue::List(items) => VecString::from_array(items),
            _ => {
                let r = VecString(Vec::new());
                proof {
                    assert(string_views(r.0@) =~= Seq::<Seq<char>>::empty());
                }
                r
            },
        }
    }

    /// The non-empty strings among the elements of an array, in order.
    pub fn from_array(items: Vec<ScriptValue>) -> (r: Self)
        ensures
            string_views(r.0@) == array_strings(items@),
    {
        let mut out: Vec<String> = Vec::new();
        let mut i: usize = 0;
        while i < items.len()
            invariant
                0 <= i <= items@.len(),
                string_views(out@) == array_strings(items@.take(i as int)),
            decreases items@.len() - i,
        {
            proof {
                assert(items@.take(i + 1).drop_last() =~= items@.take(i as int));
            }
            match &items[i] {
                ScriptValue::Text(s) => {
                    if !s.as_str().is_empty() {
                        let ghost before = string_views(out@);
                        out.push(s.clone());
                        proof {
                            assert(string_views(out@) =~= before.push(s@));
                        }
                    } else {
                        proof {
                            assert(s@.len() == 0);
                        }
                    }
                },
                _ => {},
            }
            i = i + 1;
        }
        proof {
            assert(items@.take(items@.len() as int) =~= items@);
        }
        VecString(out)
    }

    /// The strings held.
    pub fn into_vec(self) -> (r: Vec<String>)
        ensures
            r == self.0,
    {
        self.0
    }
}

impl From<Vec<String>> for VecString {
    fn from(value: Vec<String>) -> (r: Self)
        ensures
            r.0 == value,
    {
        VecString(value)
    }
}

impl vstd::std_specs::convert::FromSpecImpl<Vec<String>> for VecString {
    open spec fn obeys_from_spec() -> bool {
        true
    }

    open spec fn from_spec(v: Vec<String>) -> VecString {
        VecString(v)
    }
}

impl From<VecString> for Vec<String> {
    fn from(value: VecString) -> (r: Self)
        ensures
            r == value.0,
    {
        value.0
    }
}

impl vstd::std_specs::convert::FromSpecImpl<VecString> for Vec<String> {
    open spec fn obeys_from_spec() -> bool {
        true
    }

    open spec fn from_spec(v: VecString) -> Vec<String> {
        v.0
    }
}

} // verus!
