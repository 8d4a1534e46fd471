//! The derivation generator: a pure function from the structural
//! description of a struct or enum to the plan of an implementation of
//! [`crate::SwapBytes`].
//!
//! The macro front end supplies the description (field names in declaration
//! order, each with its resolved skip marker; an enum's representation
//! type; the generic parameters and where-clause verbatim) and renders the
//! resulting plan as source text. The plan for a struct names the fields to
//! swap, in declaration order, with skipped fields discarded; the plan for
//! an enum names the representation type whose swap the discriminant
//! delegates to. Every failure is a derivation-time failure: an unsupported
//! shape, a malformed field annotation, or an enum without a declared
//! representation.

use vstd::prelude::*;

verus! {

/// What the attribute-resolution collaborator answered for one field:
/// keep the field, skip it, or its raw annotation was malformed.
#[derive(Clone, Copy, Debug, PartialEq, Eq, Structural)]
pub enum FieldAttr {
    Keep,
    Skip,
    Malformed,
}

/// A named member of a struct together with its resolved skip marker.
pub struct FieldDesc {
    pub name: String,
    pub attr: FieldAttr,
}

/// The fixed-width integer types an enum may declare as its
/// representation.
#[derive(Clone, Copy, Debug, PartialEq, Eq, Structural)]
pub enum ReprInt {
    U8,
    U16,
    U32,
    U64,
    Usize,
    I8,
    I16,
    I32,
    I64,
    Isize,
}

/// The structural description of a struct: generic parameters and optional
/// where-clause carried verbatim, and the fields in declaration order.
pub struct StructDesc {
    pub generics: String,
    pub where_clause: Option<String>,
    pub fields: Vec<FieldDesc>,
}

/// The structural description of an enum: the representation type its
/// declaration carries, if any.
pub struct EnumDesc {
    pub repr: Option<ReprInt>,
}

/// A structural view of a type declaration, handed in by the macro front
/// end.
pub enum TypeDesc {
    Struct(StructDesc),
    Enum(EnumDesc),
    Other,
}

/// Why a derivation fails. Every failure aborts the requested
/// implementation; no partial plan is produced.
#[derive(Clone, Copy, Debug, PartialEq, Eq, Structural)]
pub enum DeriveError {
    /// Only structs and enums are supported.
    UnsupportedShape,
    /// A field's annotation could not be resolved to a skip marker.
    MalformedFieldAttr,
    /// An enum without a declared representation has no well-defined
    /// discriminant byte layout to swap.
    MissingRepr,
}

/// The implementation plan for a struct: generics and where-clause
/// repeated verbatim, and the fields to swap, in declaration order.
pub struct StructPlan {
    pub generics: String,
    pub where_clause: Option<String>,
    pub swapped_fields: Vec<String>,
}

/// The implementation plan for an enum: cast the value to its
/// representation type, byte-swap that integer, reinterpret the result as
/// the enum.
pub struct EnumPlan {
    pub repr: ReprInt,
}

/// A derived implementation plan.
pub enum SwapPlan {
    Struct(StructPlan),
    Enum(EnumPlan),
}

/// Holds when every field's annotation was resolved to a skip marker.
pub open spec fn all_attrs_resolved(fields: Seq<FieldDesc>) -> bool {
    forall|i: int| 0 <= i < fields.len() ==> !((#[trigger] fields[i]).attr is Malformed)
}

/// The names a correct implementation swaps: the non-skipped fields, in
/// declaration order.
pub open spec fn planned_fields(fields: Seq<FieldDesc>) -> Seq<String>
    decreases fields.len(),
{
    if fields.len() == 0 {
        Seq::empty()
    } else {
        let rest = planned_fields(fields.drop_last());
        if fields.last().attr is Keep {
            rest.push(fields.last().name)
        } else {
            rest
        }
    }
}

/// What a successful derivation promises of its plan.
pub open spec fn derive_ok(input: TypeDesc, plan: SwapPlan) -> bool {
    match (input, plan) {
        (TypeDesc::Struct(data), SwapPlan::Struct(p)) => {
            &&& all_attrs_resolved(data.fields@)
            &&& p.generics == data.generics
            &&& p.where_clause == data.where_clause
            &&& p.swapped_fields@ == planned_fields(data.fields@)
        },
        (TypeDesc::Enum(data), SwapPlan::Enum(p)) => data.repr == Some(p.repr),
        _ => false,
    }
}

/// Exactly which error a failing derivation reports, and on which inputs
/// it fails.
pub open spec fn derive_err(input: TypeDesc, e: DeriveError) -> bool {
    match input {
        TypeDesc::Struct(data) => e is MalformedFieldAttr && !all_attrs_resolved(data.fields@),
        TypeDesc::Enum(data) => e is MissingRepr && data.repr is None,
        TypeDesc::Other => e is UnsupportedShape,
    }
}

/// Produces the implementation plan for a struct: one swap per non-skipped
/// field, in declaration order, with generics and where-clause preserved;
/// fails exactly when some field annotation was malformed.
pub fn impl_struct(data: &StructDesc) -> (r: Result<StructPlan, DeriveError>)
    ensures
        match r {
            Ok(plan) => {
                &&& all_attrs_resolved(data.fields@)
                &&& plan.generics == data.generics
                &&& plan.where_clause == data.where_clause
                &&& plan.swapped_fields@ == planned_fields(data.fields@)
            },
            Err(e) => e is MalformedFieldAttr && !all_attrs_resolved(data.fields@),
        },
{
    let mut names: Vec<String> = Vec::new();
    let n: usize = data.fields.len();
    for i in 0..n
        invariant
            n == data.fields@.len(),
            names@ == planned_fields(data.fields@.take(i as int)),
            forall|j: int| 0 <= j < i ==> !((#[trigger] data.fields@[j]).attr is Malformed),
    {
        let field = &data.fields[i];
        match field.attr {
            FieldAttr::Keep => names.push(field.name.clone()),
            FieldAttr::Skip => (),
            FieldAttr::Malformed => {
                assert(!all_attrs_resolved(data.fields@));
                return Err(DeriveError::MalformedFieldAttr);
            },
        }
        proof {
            assert(data.fields@.take(i + 1).drop_last() =~= data.fields@.take(i as int));
        }
    }
    proof {
        assert(data.fields@.take(n as int) =~= data.fields@);
    }
    let where_clause = match &data.where_clause {
        Some(w) => Some(w.clone()),
        None => None,
    };
    Ok(StructPlan { generics: data.generics.clone(), where_clause, swapped_fields: names })
}

/// Produces the implementation plan for an enum: the discriminant, held in
/// the declared representation type, is byte-swapped and the swapped bits
/// reinterpreted as the enum; fails exactly when no representation is
/// declared.
pub fn impl_enum(data: &EnumDesc) -> (r: Result<EnumPlan, DeriveError>)
    ensures
        match r {
            Ok(plan) => data.repr == Some(plan.repr),
            Err(e) => e is MissingRepr && data.repr is None,
        },
{
    match data.repr {
        Some(repr) => Ok(EnumPlan { repr }),
        None => Err(DeriveError::MissingRepr),
    }
}

/// Derives the implementation plan for a type declaration. Structs and
/// enums with a declared representation are supported; any other shape is
/// rejected. The result pins down success and every error: see
/// [`derive_ok`] and [`derive_err`].
pub fn derive_swap_bytes(input: &TypeDesc) -> (r: Result<SwapPlan, DeriveError>)
    ensures
        match r {
            Ok(plan) => derive_ok(*input, plan),
            Err(e) => derive_err(*input, e),
        },
{
    match input {
        TypeDesc::Struct(data) => match impl_struct(data) {
            Ok(p) => Ok(SwapPlan::Struct(p)),
            Err(e) => Err(e),
        },
        TypeDesc::Enum(data) => match impl_enum(data) {
            Ok(p) => Ok(SwapPlan::Enum(p)),
            Err(e) => Err(e),
        },
        TypeDesc::Other => Err(DeriveError::UnsupportedShape),
    }
}

} // verus!
