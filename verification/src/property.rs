//! Typed properties, as attached to maps, layers, tilesets, tiles and
//! objects.
//!
//! A property arrives as a `(name, type, value)` triple in which the JSON
//! value alone is ambiguous: an integer literal may stand for a float, and
//! a string literal may stand for a file path or a serialized color.  The
//! resolver reconciles the value with the declared type string and always
//! produces some tagged value; it never rejects a scalar, because one
//! mistyped property should not invalidate an otherwise valid map.

use vstd::prelude::*;
use crate::color::Color;
use crate::color::spec_parse_color;
use crate::error::LoadError;
use crate::json::JsonField;
use crate::json::JsonValue;
use crate::json::Real;
use crate::json::spec_field;
use crate::json::str_eq;

verus! {

/// The value of one property, tagged with its resolved type.
#[derive(Debug, Clone, PartialEq)]
pub enum PropertyValue {
    StringV(String),
    Int(i32),
    Float(Real),
    Bool(bool),
    Color(Color),
    File(String),
}

/// A named property.
#[derive(Debug, Clone, PartialEq)]
pub struct Property {
    pub name: String,
    pub value: PropertyValue,
}

/// How a raw scalar and a declared type string combine into one tagged
/// value; `None` for a JSON value that is no property scalar at all.
///
/// A number that is integral and fits 32 signed bits is an `Int` unless the
/// declaration says "float"; any other number is a `Float`.  A boolean
/// passes through.  A string is kept as a string or a file path when so
/// declared; under any other declaration (including "color" and
/// unrecognized names) it is reparsed as a color, falling back silently on
/// malformed input.
pub open spec fn spec_resolve_value(ptype: Seq<char>, raw: JsonValue) -> Option<PropertyValue> {
    match raw {
        JsonValue::Bool(b) => Some(PropertyValue::Bool(b)),
        JsonValue::Num(n) => match n.int {
            Some(i) => if -2147483648 <= i && i <= 2147483647 {
                if ptype == "float"@ {
                    Some(PropertyValue::Float(Real { bits: n.bits }))
                } else {
                    Some(PropertyValue::Int(i as i32))
                }
            } else {
                Some(PropertyValue::Float(Real { bits: n.bits }))
            },
            None => Some(PropertyValue::Float(Real { bits: n.bits })),
        },
        JsonValue::Str(s) => if ptype == "string"@ {
            Some(PropertyValue::StringV(s))
        } else if ptype == "file"@ {
            Some(PropertyValue::File(s))
        } else {
            Some(PropertyValue::Color(spec_parse_color(s@)))
        },
        _ => None,
    }
}

/// What a whole property record resolves to, or `None` when the record is
/// structurally not a property.
pub open spec fn spec_property_of(v: JsonValue) -> Option<Property> {
    match v {
        JsonValue::Obj(flds) => match (
            spec_field(flds@, "name"@),
            spec_field(flds@, "type"@),
            spec_field(flds@, "value"@),
        ) {
            (Some(JsonValue::Str(nm)), Some(JsonValue::Str(tp)), Some(rv)) => match
                spec_resolve_value(tp@, rv) {
                Some(pv) => Some(Property { name: nm, value: pv }),
                None => None,
            },
            _ => None,
        },
        _ => None,
    }
}

/// What a list of property records resolves to, or `None` when any record
/// is bad.
pub open spec fn spec_properties_of(items: Seq<JsonValue>) -> Option<Seq<Property>> {
    if forall|i: int| 0 <= i < items.len() ==> (#[trigger] spec_property_of(items[i])) is Some {
        Some(Seq::new(items.len(), |i: int| spec_property_of(items[i])->0))
    } else {
        None
    }
}

/// Combines a raw scalar with its declared type string, the reading that
/// `spec_resolve_value` gives.  Only a non-scalar JSON value is rejected.
pub fn resolve_property_value(ptype: &str, raw: &JsonValue) -> (r: Result<
    PropertyValue,
    LoadError,
>)
    ensures
        match spec_resolve_value(ptype@, *raw) {
            Some(pv) => r matches Ok(v) && v == pv,
            None => r matches Err(e) && e is MalformedDocument,
        },
{
    match raw {
        JsonValue::Bool(b) => Ok(PropertyValue::Bool(*b)),
        JsonValue::Num(n) => match n.int {
            Some(i) => if -2147483648 <= i && i <= 2147483647 {
                if str_eq(ptype, "float") {
                    Ok(PropertyValue::Float(Real { bits: n.bits }))
                } else {
                    Ok(PropertyValue::Int(i as i32))
                }
            } else {
                Ok(PropertyValue::Float(Real { bits: n.bits }))
            },
            None => Ok(PropertyValue::Float(Real { bits: n.bits })),
        },
        JsonValue::Str(s) => if str_eq(ptype, "string") {
            Ok(PropertyValue::StringV(s.clone()))
        } else if str_eq(ptype, "file") {
            Ok(PropertyValue::File(s.clone()))
        } else {
            Ok(PropertyValue::Color(Color::new(s.as_str())))
        },
        _ => Err(LoadError::MalformedDocument),
    }
}

impl Property {
    /// Reads one property record: an object with a `name` string, a `type`
    /// string and a scalar `value`.
    pub fn from_json(v: &JsonValue) -> (r: Result<Property, LoadError>)
        ensures
            match spec_property_of(*v) {
                Some(p) => r matches Ok(rp) && rp == p,
                None => r matches Err(e) && e is MalformedDocument,
            },
    {
        let flds = match v {
            JsonValue::Obj(flds) => flds,
            _ => { return Err(LoadError::MalformedDocument); },
        };
        let name = match crate::json::json_field(flds, "name") {
            Some(JsonValue::Str(s)) => s.clone(),
            _ => { return Err(LoadError::MalformedDocument); },
        };
        let ptype = match crate::json::json_field(flds, "type") {
            Some(JsonValue::Str(s)) => s.clone(),
            _ => { return Err(LoadError::MalformedDocument); },
        };
        let raw = match crate::json::json_field(flds, "value") {
            Some(rv) => rv,
            None => { return Err(LoadError::MalformedDocument); },
        };
        match resolve_property_value(ptype.as_str(), raw) {
            Ok(pv) => Ok(Property { name, value: pv }),
            Err(e) => Err(e),
        }
    }

    /// Get the name of the property.
    pub fn name(&self) -> (r: &String)
        ensures
            r == &self.name,
    {
        &self.name
    }

    /// The declared-type string that matches the resolved tag.
    pub fn type_as_string(&self) -> (s: &'static str)
        ensures
            s@ == spec_type_name(self.value),
    {
        match self.value {
            PropertyValue::Int(_) => "int",
            PropertyValue::Float(_) => "float",
            PropertyValue::Bool(_) => "bool",
            PropertyValue::Color(_) => "color",
            PropertyValue::StringV(_) => "string",
            PropertyValue::File(_) => "file",
        }
    }

    /// The underlying tagged value, for matching by hand.
    pub fn get_pvalue(&self) -> (r: &PropertyValue)
        ensures
            r == &self.value,
    {
        &self.value
    }

    /// The string data, when the property is a string.
    pub fn get_string(&self) -> (r: Option<&String>)
        ensures
            match self.value {
                PropertyValue::StringV(s) => r matches Some(v) && *v == s,
                _ => r is None,
            },
    {
        if let PropertyValue::StringV(ref s) = self.value {
            Some(s)
        } else {
            None
        }
    }

    /// The integer data, when the property is an integer.
    pub fn get_int(&self) -> (r: Option<i32>)
        ensures
            match self.value {
                PropertyValue::Int(i) => r == Some(i),
                _ => r is None,
            },
    {
        if let PropertyValue::Int(i) = self.value {
            Some(i)
        } else {
            None
        }
    }

    /// The float data (as a double's bit pattern), when the property is a
    /// float.
    pub fn get_float(&self) -> (r: Option<Real>)
        ensures
            match self.value {
                PropertyValue::Float(x) => r == Some(x),
                _ => r is None,
            },
    {
        if let PropertyValue::Float(x) = self.value {
            Some(x)
        } else {
            None
        }
    }

    /// The boolean data, when the property is a boolean.
    pub fn get_bool(&self) -> (r: Option<bool>)
        ensures
            match self.value {
                PropertyValue::Bool(b) => r == Some(b),
                _ => r is None,
            },
    {
        if let PropertyValue::Bool(b) = self.value {
            Some(b)
        } else {
            None
        }
    }

    /// The color, when the property is a color.
    pub fn get_color(&self) -> (r: Option<Color>)
        ensures
            match self.value {
                PropertyValue::Color(c) => r == Some(c),
                _ => r is None,
            },
    {
        if let PropertyValue::Color(c) = self.value {
            Some(c)
        } else {
            None
        }
    }

    /// The file name, when the property is a file path.
    pub fn get_file(&self) -> (r: Option<&String>)
        ensures
            match self.value {
                PropertyValue::File(s) => r matches Some(v) && *v == s,
                _ => r is None,
            },
    {
        if let PropertyValue::File(ref s) = self.value {
            Some(s)
        } else {
            None
        }
    }
}

/// Mirror of `properties_field`: an absent `properties` member means an
/// empty list, a present one must be an array of good property records.
pub open spec fn spec_properties_field(fields: Seq<JsonField>) -> Option<Seq<Property>> {
    match spec_field(fields, "properties"@) {
        None => Some(Seq::empty()),
        Some(JsonValue::Arr(items)) => spec_properties_of(items@),
        Some(_) => None,
    }
}

/// Reads the `properties` member of a record: absent means no properties.
pub fn properties_field(fields: &Vec<JsonField>) -> (r: Result<Vec<Property>, LoadError>)
    ensures
        match spec_properties_field(fields@) {
            Some(ps) => r matches Ok(v) && v@ == ps,
            None => r matches Err(e) && e is MalformedDocument,
        },
{
    let fv = match crate::json::json_field(fields, "properties") {
        None => { return Ok(Vec::new()); },
        Some(fv) => fv,
    };
    let items = match fv {
        JsonValue::Arr(items) => items,
        _ => { return Err(LoadError::MalformedDocument); },
    };
    proof {
        assert(spec_field(fields@, "properties"@) matches Some(w) && w == JsonValue::Arr(*items));
    }
    let n = items.len();
    let mut out: Vec<Property> = Vec::new();
    let mut i: usize = 0;
    while i < n
        invariant
            n == items@.len(),
            i <= n,
            out@.len() == i,
            spec_field(fields@, "properties"@) == Some(JsonValue::Arr(*items)),
            forall|j: int|
                0 <= j < i ==> (#[trigger] spec_property_of(items@[j])) is Some && out@[j]
                    == spec_property_of(items@[j])->0,
        decreases n - i,
    {
        match Property::from_json(&items[i]) {
            Ok(p) => { out.push(p); },
            Err(_) => {
                proof {
                    assert(spec_property_of(items@[i as int]) is None);
                    assert(spec_properties_of(items@) is None);
                }
                return Err(LoadError::MalformedDocument);
            },
        }
        i += 1;
    }
    proof {
        assert(out@ =~= Seq::new(items@.len(), |k: int| spec_property_of(items@[k])->0));
    }
    Ok(out)
}

/// The declared-type name of a resolved value.
pub open spec fn spec_type_name(v: PropertyValue) -> Seq<char> {
    match v {
        PropertyValue::Int(_) => "int"@,
        PropertyValue::Float(_) => "float"@,
        PropertyValue::Bool(_) => "bool"@,
        PropertyValue::Color(_) => "color"@,
        PropertyValue::StringV(_) => "string"@,
        PropertyValue::File(_) => "file"@,
    }
}

/// The first property named `name`, if any.
pub open spec fn spec_find_property(props: Seq<Property>, name: Seq<char>) -> Option<Property>
    decreases props.len(),
{
    if props.len() == 0 {
        None
    } else if props[0].name@ == name {
        Some(props[0])
    } else {
        spec_find_property(props.drop_first(), name)
    }
}

/// Finds the first property with the given name, the reading that
/// `spec_find_property` gives.
pub fn find_property<'a>(props: &'a Vec<Property>, name: &str) -> (r: Option<&'a Property>)
    ensures
        match r {
            Some(p) => spec_find_property(props@, name@) == Some(*p),
            None => spec_find_property(props@, name@) is None,
        },
{
    let n = props.len();
    let mut i: usize = 0;
    proof {
        assert(props@.skip(0) =~= props@);
    }
    while i < n
        invariant
            n == props@.len(),
            i <= n,
            spec_find_property(props@, name@) == spec_find_property(props@.skip(i as int), name@),
        decreases n - i,
    {
        proof {
            assert(props@.skip(i as int)[0] == props@[i as int]);
        }
        if str_eq(props[i].name.as_str(), name) {
            return Some(&props[i]);
        }
        proof {
            assert(props@.skip(i as int).drop_first() =~= props@.skip(i as int + 1));
        }
        i += 1;
    }
    proof {
        assert(props@.skip(n as int) =~= Seq::<Property>::empty());
    }
    None
}

/// Anything that carries a property list.
pub trait HasProperty {
    /// The property list, as the contracts see it.
    spec fn spec_properties(&self) -> Seq<Property>;

    /// Get the whole property vector.
    fn get_property_vector(&self) -> (r: &Vec<Property>)
        ensures
            r@ == self.spec_properties(),
    ;

    /// Find a property by name.
    fn get_property(&self, name: &str) -> (r: Option<&Property>)
        ensures
            match r {
                Some(p) => spec_find_property(self.spec_properties(), name@) == Some(*p),
                None => spec_find_property(self.spec_properties(), name@) is None,
            },
    ;

    /// Find a property's value by name.
    fn get_property_value(&self, name: &str) -> (r: Option<&PropertyValue>)
        ensures
            match r {
                Some(v) => spec_find_property(self.spec_properties(), name@) matches Some(p)
                    && *v == p.value,
                None => spec_find_property(self.spec_properties(), name@) is None,
            },
    ;
}

} // verus!
