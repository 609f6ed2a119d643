use vstd::prelude::*;

verus! {

/// A declared field: its name, and its type as source text. The type is
/// never interpreted, only echoed into generated code.
#[derive(Debug, Clone)]
pub struct FieldDef {
    pub name: String,
    pub ty: String,
}

impl View for FieldDef {
    type V = (Seq<char>, Seq<char>);

    open spec fn view(&self) -> (Seq<char>, Seq<char>) {
        (self.name@, self.ty@)
    }
}

/// The shape of a type definition.
#[derive(Debug, Clone)]
pub enum TypeShape {
    /// A record type with named fields, in declaration order.
    Struct(Vec<FieldDef>),
    /// A record type whose fields have no names.
    TupleStruct,
    /// A sum type.
    Enum,
    /// An untagged union.
    Union,
}

/// A parsed type definition together with its source text, which is where
/// the table annotation is read from.
#[derive(Debug, Clone)]
pub struct TypeDefinition {
    pub name: String,
    pub shape: TypeShape,
    pub source: String,
}

/// The named fields as (name, type) pairs, for a record type with named
/// fields; `None` for every other shape.
pub open spec fn named_fields(shape: TypeShape) -> Option<Seq<(Seq<char>, Seq<char>)>> {
    match shape {
        TypeShape::Struct(fs) => Some(fields_view(fs@)),
        _ => None,
    }
}

pub open spec fn fields_view(fs: Seq<FieldDef>) -> Seq<(Seq<char>, Seq<char>)> {
    fs.map_values(|f: FieldDef| f@)
}

/// The declared type of the first field called `name`, in declaration order.
pub open spec fn field_type_of(fs: Seq<(Seq<char>, Seq<char>)>, name: Seq<char>) -> Option<
    Seq<char>,
>
    decreases fs.len(),
{
    if fs.len() == 0 {
        None
    } else if fs[0].0 == name {
        Some(fs[0].1)
    } else {
        field_type_of(fs.drop_first(), name)
    }
}

impl FieldDef {
    pub fn new(name: String, ty: String) -> (r: FieldDef)
        ensures
            r.name == name,
            r.ty == ty,
    {
        FieldDef { name, ty }
    }
}

impl TypeDefinition {
    pub fn new(name: String, shape: TypeShape, source: String) -> (r: TypeDefinition)
        ensures
            r.name == name,
            r.shape == shape,
            r.source == source,
    {
        TypeDefinition { name, shape, source }
    }
}

} // verus!
