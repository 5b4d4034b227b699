//! The schema's value shapes. A shape describes one position of a request or
//! response: a primitive, an optional, a list, a record of positional fields,
//! or a variant choosing one payload shape by tag.

use vstd::prelude::*;

verus! {

/// The shape of one wire value.
pub enum Shape {
    /// Arbitrary-precision unsigned integer.
    Nat,
    /// Boolean.
    Bool,
    /// 8-bit unsigned integer.
    N8,
    /// 16-bit unsigned integer.
    N16,
    /// 32-bit unsigned integer.
    N32,
    /// 64-bit unsigned integer.
    N64,
    /// Text, carried as its UTF-8 bytes.
    Text,
    /// Opaque byte string.
    Bytes,
    /// Opaque caller address (at most 255 bytes).
    Address,
    /// Optional value of the inner shape.
    Opt(Box<Shape>),
    /// Ordered list of values of one element shape.
    List(Box<Shape>),
    /// Record of positional fields.
    Tuple(Box<ShapeList>),
    /// Variant: a tag selecting one of the listed payload shapes.
    Variant(Box<ShapeList>),
}

/// A list of shapes, one per field or per variant tag.
pub enum ShapeList {
    Nil,
    Cons(Shape, Box<ShapeList>),
}

/// Number of entries of a shape list.
pub open spec fn shape_list_len(sl: ShapeList) -> nat
    decreases sl,
{
    match sl {
        ShapeList::Nil => 0,
        ShapeList::Cons(_, t) => 1 + shape_list_len(*t),
    }
}

/// An empty shape list.
pub open spec fn spec_sl0() -> ShapeList {
    ShapeList::Nil
}

/// A shape list of one entry.
pub open spec fn spec_sl1(a: Shape) -> ShapeList {
    ShapeList::Cons(a, Box::new(ShapeList::Nil))
}

/// A shape list of two entries.
pub open spec fn spec_sl2(a: Shape, b: Shape) -> ShapeList {
    ShapeList::Cons(a, Box::new(spec_sl1(b)))
}

/// A shape list of three entries.
pub open spec fn spec_sl3(a: Shape, b: Shape, c: Shape) -> ShapeList {
    ShapeList::Cons(a, Box::new(spec_sl2(b, c)))
}

/// A shape list of four entries.
pub open spec fn spec_sl4(a: Shape, b: Shape, c: Shape, d: Shape) -> ShapeList {
    ShapeList::Cons(a, Box::new(spec_sl3(b, c, d)))
}

/// A shape list of five entries.
pub open spec fn spec_sl5(a: Shape, b: Shape, c: Shape, d: Shape, e: Shape) -> ShapeList {
    ShapeList::Cons(a, Box::new(spec_sl4(b, c, d, e)))
}

/// A shape list of six entries.
pub open spec fn spec_sl6(a: Shape, b: Shape, c: Shape, d: Shape, e: Shape, f: Shape) -> ShapeList {
    ShapeList::Cons(a, Box::new(spec_sl5(b, c, d, e, f)))
}

/// A shape list of seven entries.
pub open spec fn spec_sl7(
    a: Shape,
    b: Shape,
    c: Shape,
    d: Shape,
    e: Shape,
    f: Shape,
    g: Shape,
) -> ShapeList {
    ShapeList::Cons(a, Box::new(spec_sl6(b, c, d, e, f, g)))
}

/// A shape list of eight entries.
pub open spec fn spec_sl8(
    a: Shape,
    b: Shape,
    c: Shape,
    d: Shape,
    e: Shape,
    f: Shape,
    g: Shape,
    h: Shape,
) -> ShapeList {
    ShapeList::Cons(a, Box::new(spec_sl7(b, c, d, e, f, g, h)))
}

/// A shape list of nine entries.
pub open spec fn spec_sl9(
    a: Shape,
    b: Shape,
    c: Shape,
    d: Shape,
    e: Shape,
    f: Shape,
    g: Shape,
    h: Shape,
    i: Shape,
) -> ShapeList {
    ShapeList::Cons(a, Box::new(spec_sl8(b, c, d, e, f, g, h, i)))
}

/// An empty shape list.
pub fn sl0() -> (r: ShapeList)
    ensures
        r == spec_sl0(),
{
    ShapeList::Nil
}

/// A shape list of one entry.
pub fn sl1(a: Shape) -> (r: ShapeList)
    ensures
        r == spec_sl1(a),
{
    ShapeList::Cons(a, Box::new(ShapeList::Nil))
}

/// A shape list of two entries.
pub fn sl2(a: Shape, b: Shape) -> (r: ShapeList)
    ensures
        r == spec_sl2(a, b),
{
    ShapeList::Cons(a, Box::new(sl1(b)))
}

/// A shape list of three entries.
pub fn sl3(a: Shape, b: Shape, c: Shape) -> (r: ShapeList)
    ensures
        r == spec_sl3(a, b, c),
{
    ShapeList::Cons(a, Box::new(sl2(b, c)))
}

/// A shape list of four entries.
pub fn sl4(a: Shape, b: Shape, c: Shape, d: Shape) -> (r: ShapeList)
    ensures
        r == spec_sl4(a, b, c, d),
{
    ShapeList::Cons(a, Box::new(sl3(b, c, d)))
}

/// A shape list of five entries.
pub fn sl5(a: Shape, b: Shape, c: Shape, d: Shape, e: Shape) -> (r: ShapeList)
    ensures
        r == spec_sl5(a, b, c, d, e),
{
    ShapeList::Cons(a, Box::new(sl4(b, c, d, e)))
}

/// A shape list of six entries.
pub fn sl6(a: Shape, b: Shape, c: Shape, d: Shape, e: Shape, f: Shape) -> (r: ShapeList)
    ensures
        r == spec_sl6(a, b, c, d, e, f),
{
    ShapeList::Cons(a, Box::new(sl5(b, c, d, e, f)))
}

/// A shape list of seven entries.
pub fn sl7(a: Shape, b: Shape, c: Shape, d: Shape, e: Shape, f: Shape, g: Shape) -> (r: ShapeList)
    ensures
        r == spec_sl7(a, b, c, d, e, f, g),
{
    ShapeList::Cons(a, Box::new(sl6(b, c, d, e, f, g)))
}

/// A shape list of eight entries.
pub fn sl8(
    a: Shape,
    b: Shape,
    c: Shape,
    d: Shape,
    e: Shape,
    f: Shape,
    g: Shape,
    h: Shape,
) -> (r: ShapeList)
    ensures
        r == spec_sl8(a, b, c, d, e, f, g, h),
{
    ShapeList::Cons(a, Box::new(sl7(b, c, d, e, f, g, h)))
}

/// A shape list of nine entries.
pub fn sl9(
    a: Shape,
    b: Shape,
    c: Shape,
    d: Shape,
    e: Shape,
    f: Shape,
    g: Shape,
    h: Shape,
    i: Shape,
) -> (r: ShapeList)
    ensures
        r == spec_sl9(a, b, c, d, e, f, g, h, i),
{
    ShapeList::Cons(a, Box::new(sl8(b, c, d, e, f, g, h, i)))
}

} // verus!
