//! The accessor synthesizer: consumes the eligible-field list and the
//! record's name, and produces the accessor plan — one getter/setter pair per
//! eligible field, the final emptiness check, and the conventional name of
//! the record's error-carrier type.

use vstd::prelude::*;

use crate::extract::{
    SchemaError, eligible_seq, extract_eligible_fields, extract_error_condition, no_faults,
};
use crate::schema::{EligibleField, RecordSchema, TypeExpr, has_named_fields, named_fields_of};

verus! {

/// The accessors planned for one eligible field: the consuming getter bears
/// the field's own name, the guarded setter bears the `set_`-prefixed name,
/// and the slot carries the wrapper's inner type.
pub struct PlanField {
    pub name: String,
    pub getter_name: String,
    pub setter_name: String,
    pub inner: TypeExpr,
}

/// The synthesized accessor plan for a record type: the record's name, the
/// conventional name of its error-carrier type, and one entry per eligible
/// field, in declaration order.
pub struct SectionPlan {
    pub record_name: String,
    pub error_name: String,
    pub fields: Vec<PlanField>,
}

/// The name of the setter generated for a field.
pub open spec fn setter_name_for(name: Seq<char>) -> Seq<char> {
    "set_"@ + name
}

/// The conventional name of the error-carrier type of a record.
pub open spec fn error_name_for(record_name: Seq<char>) -> Seq<char> {
    record_name + "Error"@
}

/// The plan entries mirror the eligible fields one for one, in order: same
/// field name, getter named after the field, setter carrying the prefix, and
/// the same inner type.
pub open spec fn plan_matches(fields: Seq<EligibleField>, entries: Seq<PlanField>) -> bool {
    &&& entries.len() == fields.len()
    &&& forall|i: int|
        0 <= i < fields.len() ==> {
            &&& (#[trigger] entries[i]).name@ == fields[i].name@
            &&& entries[i].getter_name@ == fields[i].name@
            &&& entries[i].setter_name@ == setter_name_for(fields[i].name@)
            &&& entries[i].inner == fields[i].inner
        }
}

/// Builds the accessor plan for a record name and its eligible fields.
pub fn synthesize_accessors(record_name: String, fields: Vec<EligibleField>) -> (p: SectionPlan)
    ensures
        p.record_name@ == record_name@,
        p.error_name@ == error_name_for(record_name@),
        plan_matches(fields@, p.fields@),
{
    let mut error_name: String = record_name.clone();
    error_name.append("Error");
    let ghost all: Seq<EligibleField> = fields@;
    proof {
        assert(fields.len() == all.len());
    }
    let mut fields = fields;
    let mut entries: Vec<PlanField> = Vec::new();
    let mut i: usize = 0;
    while fields.len() > 0
        invariant
            all.len() <= usize::MAX,
            i + fields@.len() == all.len(),
            fields@ == all.skip(i as int),
            entries@.len() == i,
            forall|j: int|
                0 <= j < i ==> {
                    &&& (#[trigger] entries@[j]).name@ == all[j].name@
                    &&& entries@[j].getter_name@ == all[j].name@
                    &&& entries@[j].setter_name@ == setter_name_for(all[j].name@)
                    &&& entries@[j].inner == all[j].inner
                },
        decreases fields@.len(),
    {
        let field = fields.remove(0);
        assert(field == all[i as int]);
        proof {
            assert(all.skip(i as int).skip(1) =~= all.skip(i + 1));
        }
        let EligibleField { name, inner } = field;
        let getter_name: String = name.clone();
        let mut setter_name: String = "set_".to_owned();
        setter_name.append(name.as_str());
        entries.push(PlanField { name, getter_name, setter_name, inner });
        i = i + 1;
    }
    SectionPlan { record_name, error_name, fields: entries }
}

/// Derives the whole accessor plan from a record schema: extracts the
/// eligible fields, then synthesizes the accessors for them.
///
/// Succeeds exactly where extraction succeeds; the plan then carries the
/// record's name, its conventional error-carrier name, and one accessor
/// entry per eligible field, in declaration order. Errors are exactly those
/// of extraction.
pub fn derive_section_parser(schema: RecordSchema) -> (r: Result<SectionPlan, SchemaError>)
    ensures
        match r {
            Ok(plan) => {
                &&& schema.generic_params == 0
                &&& has_named_fields(schema)
                &&& no_faults(named_fields_of(schema))
                &&& plan.record_name@ == schema.name@
                &&& plan.error_name@ == error_name_for(schema.name@)
                &&& plan_matches(eligible_seq(named_fields_of(schema)), plan.fields@)
            },
            Err(e) => extract_error_condition(schema, e),
        },
{
    let record_name: String = schema.name.clone();
    let fields = match extract_eligible_fields(schema) {
        Ok(fields) => fields,
        Err(e) => {
            return Err(e);
        },
    };
    Ok(synthesize_accessors(record_name, fields))
}

} // verus!
