//! The port type tags and the connection-compatibility rule.

use vstd::prelude::*;

verus! {

/// The type tag carried by every port. Two ports may be connected
/// only if their tags are equal.
#[derive(Clone, Copy, Debug, PartialEq, Eq, Structural)]
pub enum MyDataType {
    Scalar,
    Vec2,
}

/// A display color as three byte channels; each data type has one
/// fixed color.
#[derive(Clone, Copy, Debug, PartialEq, Eq, Structural)]
pub struct Rgb {
    pub r: u8,
    pub g: u8,
    pub b: u8,
}

/// What `MyDataType::data_type_color` returns for each tag.
pub open spec fn spec_type_color(d: MyDataType) -> Rgb {
    match d {
        MyDataType::Scalar => Rgb { r: 38, g: 109, b: 211 },
        MyDataType::Vec2 => Rgb { r: 238, g: 207, b: 109 },
    }
}

impl MyDataType {
    /// The fixed color a port of this type is drawn with.
    pub fn data_type_color(&self) -> (c: Rgb)
        ensures
            c == spec_type_color(*self),
    {
        match self {
            MyDataType::Scalar => Rgb { r: 38, g: 109, b: 211 },
            MyDataType::Vec2 => Rgb { r: 238, g: 207, b: 109 },
        }
    }

    /// The user-facing name of this data type.
    pub fn name(&self) -> (s: &'static str)
        ensures
            s@ == spec_type_name(*self),
    {
        match self {
            MyDataType::Scalar => "scalar",
            MyDataType::Vec2 => "2d vector",
        }
    }
}

/// What `MyDataType::name` returns for each tag.
pub open spec fn spec_type_name(d: MyDataType) -> Seq<char> {
    match d {
        MyDataType::Scalar => "scalar"@,
        MyDataType::Vec2 => "2d vector"@,
    }
}

/// A connection from an output port to an input port is legal
/// exactly when the two tags are equal; there is no implicit widening.
pub fn can_connect(output: MyDataType, input: MyDataType) -> (ok: bool)
    ensures
        ok == (output == input),
{
    output == input
}

/// Display names are non-empty and distinct across the two type tags,
/// and so are the display colors.
pub proof fn lemma_display_distinct()
    ensures
        spec_type_name(MyDataType::Scalar).len() > 0,
        spec_type_name(MyDataType::Vec2).len() > 0,
        spec_type_name(MyDataType::Scalar) != spec_type_name(MyDataType::Vec2),
        spec_type_color(MyDataType::Scalar) != spec_type_color(MyDataType::Vec2),
{
    reveal_strlit("scalar");
    reveal_strlit("2d vector");
    assert(spec_type_name(MyDataType::Scalar).len() == 6);
    assert(spec_type_name(MyDataType::Vec2).len() == 9);
}

} // verus!
