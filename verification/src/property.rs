use vstd::prelude::*;

use crate::align::{Alignment, Horizontal, Vertical};
use crate::hash::{fnv1a_hash_64, fnv_str};
use crate::text::owned;

verus! {

/// A property of a widget: its name and the FNV-1a hash of the name, by
/// which values are stored.
#[derive(Clone, Debug, PartialEq, Eq)]
pub struct PropertyKey {
    pub name: String,
    pub hash: u64,
}

impl PropertyKey {
    /// The key's hash is that of its name.
    pub open spec fn wf(&self) -> bool {
        self.hash == fnv_str(self.name@)
    }

    /// Declares a property key by its name.
    pub fn declare(name: &str) -> (k: PropertyKey)
        ensures
            k.name@ == name@,
            k.hash == fnv_str(name@),
            k.wf(),
    {
        PropertyKey { name: owned(name), hash: fnv1a_hash_64(name) }
    }

    /// Builds a key from a name known only at run time.
    pub fn from_dynamic(name: &str) -> (k: PropertyKey)
        ensures
            k.name@ == name@,
            k.hash == fnv_str(name@),
            k.wf(),
    {
        Self::declare(name)
    }

    /// A copy of the key.
    pub fn duplicate(&self) -> (k: PropertyKey)
        ensures
            k == *self,
    {
        PropertyKey { name: self.name.clone(), hash: self.hash }
    }
}

/// Hash of the name of the `parent` property.
pub open spec fn parent_hash() -> u64 {
    fnv_str("parent"@)
}

/// The `parent` property: the id of the container a widget sits in, or
/// empty for the canvas root.
pub fn prop_parent() -> (k: PropertyKey)
    ensures
        k.name@ == "parent"@,
        k.hash == parent_hash(),
        k.wf(),
{
    PropertyKey::declare("parent")
}

/// A length: fill, a share of the fill, shrink, or a fixed size whose
/// `f32` is held by its bit pattern.
#[derive(Clone, Copy, Debug, PartialEq, Eq, Structural)]
pub enum LengthValue {
    Fill,
    FillPortion(u16),
    Shrink,
    Fixed(u32),
}

/// A colour; each `f32` channel is held by its bit pattern.
#[derive(Clone, Copy, Debug, PartialEq, Eq, Structural)]
pub struct ColorBits {
    pub r: u32,
    pub g: u32,
    pub b: u32,
    pub a: u32,
}

/// Padding on four sides; each `f32` is held by its bit pattern.
#[derive(Clone, Copy, Debug, PartialEq, Eq, Structural)]
pub struct PaddingBits {
    pub top: u32,
    pub right: u32,
    pub bottom: u32,
    pub left: u32,
}

/// Corner radii; each `f32` is held by its bit pattern.
#[derive(Clone, Copy, Debug, PartialEq, Eq, Structural)]
pub struct RadiusBits {
    pub top_left: u32,
    pub top_right: u32,
    pub bottom_right: u32,
    pub bottom_left: u32,
}

/// A typed value held in the property table.
#[derive(Clone, Debug, PartialEq, Eq)]
pub enum StoredValue {
    Text(String),
    USize(usize),
    Float(u32),
    Integer(i32),
    Boolean(bool),
    Color(ColorBits),
    Length(LengthValue),
    Pixels(u32),
    Padding(PaddingBits),
    Radius(RadiusBits),
    AlignItems(Alignment),
    AlignX(Horizontal),
    AlignY(Vertical),
}

/// The type of a stored value.
#[derive(Clone, Copy, Debug, PartialEq, Eq, Structural)]
pub enum ValueType {
    Text,
    USize,
    Float,
    Integer,
    Boolean,
    Color,
    Length,
    Pixels,
    Padding,
    Radius,
    AlignItems,
    AlignX,
    AlignY,
}

/// The type of a stored value.
pub open spec fn type_of(v: StoredValue) -> ValueType {
    match v {
        StoredValue::Text(_) => ValueType::Text,
        StoredValue::USize(_) => ValueType::USize,
        StoredValue::Float(_) => ValueType::Float,
        StoredValue::Integer(_) => ValueType::Integer,
        StoredValue::Boolean(_) => ValueType::Boolean,
        StoredValue::Color(_) => ValueType::Color,
        StoredValue::Length(_) => ValueType::Length,
        StoredValue::Pixels(_) => ValueType::Pixels,
        StoredValue::Padding(_) => ValueType::Padding,
        StoredValue::Radius(_) => ValueType::Radius,
        StoredValue::AlignItems(_) => ValueType::AlignItems,
        StoredValue::AlignX(_) => ValueType::AlignX,
        StoredValue::AlignY(_) => ValueType::AlignY,
    }
}

impl StoredValue {
    /// The type of the value.
    pub fn value_type(&self) -> (t: ValueType)
        ensures
            t == type_of(*self),
    {
        match self {
            StoredValue::Text(_) => ValueType::Text,
            StoredValue::USize(_) => ValueType::USize,
            StoredValue::Float(_) => ValueType::Float,
            StoredValue::Integer(_) => ValueType::Integer,
            StoredValue::Boolean(_) => ValueType::Boolean,
            StoredValue::Color(_) => ValueType::Color,
            StoredValue::Length(_) => ValueType::Length,
            StoredValue::Pixels(_) => ValueType::Pixels,
            StoredValue::Padding(_) => ValueType::Padding,
            StoredValue::Radius(_) => ValueType::Radius,
            StoredValue::AlignItems(_) => ValueType::AlignItems,
            StoredValue::AlignX(_) => ValueType::AlignX,
            StoredValue::AlignY(_) => ValueType::AlignY,
        }
    }

    /// A copy of the value.
    pub fn duplicate(&self) -> (r: StoredValue)
        ensures
            r == *self,
    {
        match self {
            StoredValue::Text(s) => StoredValue::Text(s.clone()),
            StoredValue::USize(v) => StoredValue::USize(*v),
            StoredValue::Float(v) => StoredValue::Float(*v),
            StoredValue::Integer(v) => StoredValue::Integer(*v),
            StoredValue::Boolean(v) => StoredValue::Boolean(*v),
            StoredValue::Color(v) => StoredValue::Color(*v),
            StoredValue::Length(v) => StoredValue::Length(*v),
            StoredValue::Pixels(v) => StoredValue::Pixels(*v),
            StoredValue::Padding(v) => StoredValue::Padding(*v),
            StoredValue::Radius(v) => StoredValue::Radius(*v),
            StoredValue::AlignItems(v) => StoredValue::AlignItems(*v),
            StoredValue::AlignX(v) => StoredValue::AlignX(*v),
            StoredValue::AlignY(v) => StoredValue::AlignY(*v),
        }
    }
}

} // verus!
