//! The schema extractor: walks a record schema and produces the ordered list
//! of eligible fields, or the error that aborts generation.

use vstd::prelude::*;

use crate::schema::{
    EligibleField, FieldDecl, FieldsShape, GenericArg, RecordData, RecordSchema, SegmentArgs,
    TypeExpr, eligible_of, has_named_fields, is_eligible, is_faulty, is_optional_path,
    named_fields_of, wrapper_args,
};

verus! {

/// What is wrong with the argument list of an optional marker.
#[derive(Debug, PartialEq, Eq)]
pub enum WrapperFault {
    NotAngleBracketed,
    NoArguments,
    ExtraArguments,
    ArgumentNotAType,
}

/// Why generation aborted.
#[derive(Debug, PartialEq, Eq)]
pub enum SchemaError {
    GenericsUnsupported,
    NotAStruct,
    FieldsNotNamed,
    MalformedWrapper { field: String, fault: WrapperFault },
}

/// The fault reported for a faulty field's declared type.
pub open spec fn fault_of(ty: TypeExpr) -> WrapperFault
    recommends
        is_optional_path(ty),
{
    match wrapper_args(ty) {
        SegmentArgs::AngleBracketed(args) => if args@.len() == 0 {
            WrapperFault::NoArguments
        } else if args@.len() > 1 {
            WrapperFault::ExtraArguments
        } else {
            WrapperFault::ArgumentNotAType
        },
        _ => WrapperFault::NotAngleBracketed,
    }
}

/// No field of the sequence aborts generation.
pub open spec fn no_faults(fields: Seq<FieldDecl>) -> bool {
    forall|i: int| 0 <= i < fields.len() ==> !is_faulty(fields[i])
}

/// The eligible fields of a declared field sequence, in declaration order.
pub open spec fn eligible_seq(fields: Seq<FieldDecl>) -> Seq<EligibleField>
    decreases fields.len(),
{
    if fields.len() == 0 {
        Seq::empty()
    } else {
        let rest = eligible_seq(fields.drop_last());
        if is_eligible(fields.last()) {
            rest.push(eligible_of(fields.last()))
        } else {
            rest
        }
    }
}

/// The faulty field at index `i` is the first one: generation aborts there.
pub open spec fn first_fault_at(fields: Seq<FieldDecl>, i: int) -> bool {
    &&& 0 <= i < fields.len()
    &&& is_faulty(fields[i])
    &&& forall|j: int| 0 <= j < i ==> !is_faulty(fields[j])
}

/// The exact condition under which extraction reports each error.
pub open spec fn extract_error_condition(schema: RecordSchema, e: SchemaError) -> bool {
    match e {
        SchemaError::GenericsUnsupported => schema.generic_params != 0,
        SchemaError::NotAStruct => {
            &&& schema.generic_params == 0
            &&& !(schema.data is StructData)
        },
        SchemaError::FieldsNotNamed => {
            &&& schema.generic_params == 0
            &&& schema.data is StructData
            &&& !has_named_fields(schema)
        },
        SchemaError::MalformedWrapper { field, fault } => {
            &&& schema.generic_params == 0
            &&& has_named_fields(schema)
            &&& exists|i: int|
                #[trigger] first_fault_at(named_fields_of(schema), i)
                    && field@ == named_fields_of(schema)[i].name@
                    && fault == fault_of(named_fields_of(schema)[i].ty)
        },
    }
}

/// Extracts the ordered list of eligible fields from a record schema.
///
/// Succeeds exactly on a generics-free named-field struct schema none of
/// whose fields names the optional marker with a malformed argument list;
/// the result then lists exactly the eligible fields, in declaration order.
/// Each error identifies the condition that aborted generation, and a
/// malformed wrapper names the first faulty field in declaration order.
pub fn extract_eligible_fields(schema: RecordSchema) -> (r: Result<
    Vec<EligibleField>,
    SchemaError,
>)
    ensures
        match r {
            Ok(out) => {
                &&& schema.generic_params == 0
                &&& has_named_fields(schema)
                &&& no_faults(named_fields_of(schema))
                &&& out@ == eligible_seq(named_fields_of(schema))
            },
            Err(e) => extract_error_condition(schema, e),
        },
{
    if schema.generic_params != 0 {
        return Err(SchemaError::GenericsUnsupported);
    }
    let shape = match schema.data {
        RecordData::StructData(shape) => shape,
        _ => {
            return Err(SchemaError::NotAStruct);
        },
    };
    let mut fields = match shape {
        FieldsShape::NamedFields(fields) => fields,
        _ => {
            return Err(SchemaError::FieldsNotNamed);
        },
    };
    let ghost all: Seq<FieldDecl> = fields@;
    proof {
        assert(named_fields_of(schema) == all);
        assert(fields.len() == all.len());
    }
    let marker: String = "Option".to_owned();
    let mut out: Vec<EligibleField> = Vec::new();
    let mut i: usize = 0;
    while fields.len() > 0
        invariant
            schema.generic_params == 0,
            has_named_fields(schema),
            named_fields_of(schema) == all,
            all.len() <= usize::MAX,
            i + fields@.len() == all.len(),
            fields@ == all.skip(i as int),
            marker@ == "Option"@,
            out@ == eligible_seq(all.take(i as int)),
            forall|j: int| 0 <= j < i ==> !is_faulty(all[j]),
        decreases fields@.len(),
    {
        let field = fields.remove(0);
        assert(field == all[i as int]);
        proof {
            assert(all.take(i + 1).drop_last() =~= all.take(i as int));
            assert(all.take(i + 1).last() == all[i as int]);
            assert(all.skip(i as int).skip(1) =~= all.skip(i + 1));
        }
        let FieldDecl { name, ty } = field;
        let mut segments = match ty {
            TypeExpr::PathType(segments) => segments,
            TypeExpr::NonPathType => {
                i = i + 1;
                continue;
            },
        };
        if segments.len() == 0 {
            // A path with no segments cannot name the marker.
            i = i + 1;
            continue;
        }
        let first = segments.remove(0);
        if !(first.ident == marker) {
            i = i + 1;
            continue;
        }
        let mut args = match first.args {
            SegmentArgs::AngleBracketed(args) => args,
            _ => {
                assert(first_fault_at(named_fields_of(schema), i as int));
                return Err(
                    SchemaError::MalformedWrapper {
                        field: name,
                        fault: WrapperFault::NotAngleBracketed,
                    },
                );
            },
        };
        if args.len() == 0 {
            assert(first_fault_at(named_fields_of(schema), i as int));
            return Err(
                SchemaError::MalformedWrapper { field: name, fault: WrapperFault::NoArguments },
            );
        }
        if args.len() > 1 {
            assert(first_fault_at(named_fields_of(schema), i as int));
            return Err(
                SchemaError::MalformedWrapper { field: name, fault: WrapperFault::ExtraArguments },
            );
        }
        let inner = match args.remove(0) {
            GenericArg::TypeArg(inner) => inner,
            GenericArg::NonTypeArg => {
                assert(first_fault_at(named_fields_of(schema), i as int));
                return Err(
                    SchemaError::MalformedWrapper {
                        field: name,
                        fault: WrapperFault::ArgumentNotAType,
                    },
                );
            },
        };
        out.push(EligibleField { name, inner });
        i = i + 1;
    }
    proof {
        assert(all.take(i as int) =~= all);
    }
    Ok(out)
}

/// Law: a field that is not wrapped in the optional marker receives no
/// accessors at all — if no eligible field bears a name, then no extracted
/// entry bears that name either.
pub proof fn lemma_ineligible_fields_excluded(fields: Seq<FieldDecl>, name: Seq<char>)
    requires
        forall|j: int|
            0 <= j < fields.len() && (#[trigger] fields[j].name)@ == name ==> !is_eligible(
                fields[j],
            ),
    ensures
        forall|k: int|
            0 <= k < eligible_seq(fields).len() ==> (#[trigger] eligible_seq(fields)[k].name)@
                != name,
    decreases fields.len(),
{
    if fields.len() > 0 {
        let prefix = fields.drop_last();
        assert forall|j: int|
            0 <= j < prefix.len() && (#[trigger] prefix[j].name)@ == name implies !is_eligible(
            prefix[j],
        ) by {
            assert(prefix[j] == fields[j]);
        }
        lemma_ineligible_fields_excluded(prefix, name);
        if is_eligible(fields.last()) {
            assert(fields.last() == fields[fields.len() - 1]);
            assert forall|k: int|
                0 <= k < eligible_seq(fields).len() implies (#[trigger] eligible_seq(
                fields,
            )[k].name)@ != name by {
                if k < eligible_seq(prefix).len() {
                    assert(eligible_seq(fields)[k] == eligible_seq(prefix)[k]);
                } else {
                    assert(eligible_seq(fields)[k] == eligible_of(fields.last()));
                }
            }
        }
    }
}

} // verus!
