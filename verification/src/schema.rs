//! The compile-time description of a record type, and the classification of
//! its fields.
//!
//! A field is *eligible* for accessor synthesis when its declared type is a
//! path type whose outermost segment is the `Option` marker applied to exactly
//! one type argument. A field whose outermost type is anything else is
//! silently ignored. A field that names the marker but applies it to a
//! malformed argument list is a hard generation-time failure.

use vstd::prelude::*;

verus! {

/// One generic argument of a path segment, as far as classification needs to
/// see it: either a type, or something else (a lifetime or a constant).
#[derive(Debug, PartialEq, Eq)]
pub enum GenericArg {
    TypeArg(TypeExpr),
    NonTypeArg,
}

/// The argument list attached to a path segment.
#[derive(Debug, PartialEq, Eq)]
pub enum SegmentArgs {
    NoArgs,
    AngleBracketed(Vec<GenericArg>),
    Parenthesized,
}

/// One segment of a path type: an identifier with its argument list.
#[derive(Debug, PartialEq, Eq)]
pub struct PathSegment {
    pub ident: String,
    pub args: SegmentArgs,
}

/// A declared type, as far as classification needs to see it: a path made of
/// segments, or any other shape of type.
#[derive(Debug, PartialEq, Eq)]
pub enum TypeExpr {
    PathType(Vec<PathSegment>),
    NonPathType,
}

/// A named field of the record schema.
#[derive(Debug, PartialEq, Eq)]
pub struct FieldDecl {
    pub name: String,
    pub ty: TypeExpr,
}

/// The field layout of a struct: named fields, tuple-style fields, or none.
#[derive(Debug, PartialEq, Eq)]
pub enum FieldsShape {
    NamedFields(Vec<FieldDecl>),
    UnnamedFields,
    UnitFields,
}

/// The data shape of the record declaration.
#[derive(Debug, PartialEq, Eq)]
pub enum RecordData {
    StructData(FieldsShape),
    EnumData,
    UnionData,
}

/// The schema of a record type: its name, how many generic parameters its
/// declaration carries, and its data shape.
#[derive(Debug, PartialEq, Eq)]
pub struct RecordSchema {
    pub name: String,
    pub generic_params: usize,
    pub data: RecordData,
}

/// An eligible field: its name and the inner type carried by the marker.
#[derive(Debug, PartialEq, Eq)]
pub struct EligibleField {
    pub name: String,
    pub inner: TypeExpr,
}

/// The name of the optional marker that makes a field eligible.
pub open spec fn optional_marker() -> Seq<char> {
    "Option"@
}

/// The segments of a declared type, or the empty sequence for a non-path type.
pub open spec fn outer_segments(ty: TypeExpr) -> Seq<PathSegment> {
    match ty {
        TypeExpr::PathType(segments) => segments@,
        TypeExpr::NonPathType => Seq::empty(),
    }
}

/// Whether a declared type is a path whose outermost segment names the
/// optional marker. Only such a type can make its field eligible, and only
/// such a type can make the schema malformed.
pub open spec fn is_optional_path(ty: TypeExpr) -> bool {
    &&& ty is PathType
    &&& outer_segments(ty).len() > 0
    &&& outer_segments(ty)[0].ident@ == optional_marker()
}

/// The argument list of the outermost segment.
pub open spec fn wrapper_args(ty: TypeExpr) -> SegmentArgs
    recommends
        is_optional_path(ty),
{
    outer_segments(ty)[0].args
}

/// Whether the marker's argument list is well-formed: angle-bracketed, with
/// exactly one argument, which is a type.
pub open spec fn wrapper_args_wellformed(ty: TypeExpr) -> bool {
    &&& wrapper_args(ty) matches SegmentArgs::AngleBracketed(args)
    &&& args@.len() == 1
    &&& args@[0] is TypeArg
}

/// The inner type carried by a well-formed optional wrapper.
pub open spec fn wrapper_inner(ty: TypeExpr) -> TypeExpr
    recommends
        is_optional_path(ty),
        wrapper_args_wellformed(ty),
{
    match wrapper_args(ty) {
        SegmentArgs::AngleBracketed(args) => match args@[0] {
            GenericArg::TypeArg(t) => t,
            GenericArg::NonTypeArg => TypeExpr::NonPathType,
        },
        _ => TypeExpr::NonPathType,
    }
}

/// A field receives accessors exactly when it names the marker with a
/// well-formed argument list.
pub open spec fn is_eligible(field: FieldDecl) -> bool {
    is_optional_path(field.ty) && wrapper_args_wellformed(field.ty)
}

/// A field aborts generation exactly when it names the marker with a
/// malformed argument list.
pub open spec fn is_faulty(field: FieldDecl) -> bool {
    is_optional_path(field.ty) && !wrapper_args_wellformed(field.ty)
}

/// The eligible-field record extracted from an eligible schema field.
pub open spec fn eligible_of(field: FieldDecl) -> EligibleField
    recommends
        is_eligible(field),
{
    EligibleField { name: field.name, inner: wrapper_inner(field.ty) }
}

/// Whether the schema declares a struct with named fields.
pub open spec fn has_named_fields(schema: RecordSchema) -> bool {
    schema.data matches RecordData::StructData(FieldsShape::NamedFields(_))
}

/// The declared fields of a named-field struct schema.
pub open spec fn named_fields_of(schema: RecordSchema) -> Seq<FieldDecl>
    recommends
        has_named_fields(schema),
{
    match schema.data {
        RecordData::StructData(FieldsShape::NamedFields(fields)) => fields@,
        _ => Seq::empty(),
    }
}

} // verus!
