use vstd::prelude::*;

verus! {

/// Why a transformation was refused. Each aborts the whole transformation:
/// no partial output is ever produced.
#[derive(Debug, Clone)]
pub enum TransformError {
    /// The definition is not a record type with named fields.
    UnsupportedShape,
    /// No line of the definition starts with the table annotation.
    MissingTableAnnotation,
    /// The annotation line holds no quoted table name.
    MalformedAnnotation,
    /// A requested field is not declared on the type.
    UnknownField { field: String, struct_name: String },
}

/// What a `TransformError` says, with its names as character sequences.
pub enum Failure {
    UnsupportedShape,
    MissingTableAnnotation,
    MalformedAnnotation,
    UnknownField { field: Seq<char>, struct_name: Seq<char> },
}

impl View for TransformError {
    type V = Failure;

    open spec fn view(&self) -> Failure {
        match self {
            TransformError::UnsupportedShape => Failure::UnsupportedShape,
            TransformError::MissingTableAnnotation => Failure::MissingTableAnnotation,
            TransformError::MalformedAnnotation => Failure::MalformedAnnotation,
            TransformError::UnknownField { field, struct_name } => Failure::UnknownField {
                field: field@,
                struct_name: struct_name@,
            },
        }
    }
}

/// A result whose text and error are seen through their views.
pub open spec fn result_view(r: Result<String, TransformError>) -> Result<Seq<char>, Failure> {
    match r {
        Ok(s) => Ok(s@),
        Err(e) => Err(e@),
    }
}

impl TransformError {
    /// A human-readable account of the failure.
    pub fn message(&self) -> (r: String)
        ensures
            r@ == match self@ {
                Failure::UnsupportedShape =>
                    "#[findable_by] can only be used on structs with named fields"@,
                Failure::MissingTableAnnotation =>
                    "Struct must be annotated with #[table_name = \"...\"]"@,
                Failure::MalformedAnnotation => "Malformed table_name attribute"@,
                Failure::UnknownField { field, struct_name } => "Attribute "@ + field
                    + " not found in "@ + struct_name,
            },
    {
        let mut m = String::new();
        match self {
            TransformError::UnsupportedShape => {
                m.append("#[findable_by] can only be used on structs with named fields");
            },
            TransformError::MissingTableAnnotation => {
                m.append("Struct must be annotated with #[table_name = \"...\"]");
            },
            TransformError::MalformedAnnotation => {
                m.append("Malformed table_name attribute");
            },
            TransformError::UnknownField { field, struct_name } => {
                m.append("Attribute ");
                m.append(field.as_str());
                m.append(" not found in ");
                m.append(struct_name.as_str());
            },
        }
        proof {
            if let TransformError::UnknownField { field, struct_name } = self {
                assert(m@ =~= "Attribute "@ + field@ + " not found in "@ + struct_name@);
            }
        }
        m
    }
}

} // verus!
