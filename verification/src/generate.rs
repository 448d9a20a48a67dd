//! The type-shape analyzer: validates field annotations and turns a shape
//! into a measurement plan.
//!
//! The plan lists, per variant, the fields that take part in the summation,
//! in declaration order, with array fields marked for element-wise
//! expansion.  An excluded field is omitted from the plan entirely: its
//! contribution is never computed, not merely discarded.  A bare exclusion
//! marker, or an attribute the analyzer does not recognise, fails the whole
//! generation with a diagnostic; no partial plan is ever produced.

use vstd::prelude::*;

use crate::shape::{AttrShape, AttrValue, FieldShape, ShapeKind, TypeShape, VariantShape};
use vstd::string::StringExecFns;

verus! {

/// The marker attribute that excludes a field from measurement.
pub open spec fn spec_marker() -> Seq<char> {
    "ignore_heap_size_of"@
}

/// A generation failure.  Generation aborts as a whole: there is no way to
/// continue with a gap in the measurement.
#[derive(Debug, PartialEq, Eq)]
pub enum GenError {
    /// The exclusion marker was attached without a justification value.
    MissingJustification,
    /// A field carried an attribute the analyzer does not recognise.
    UnrecognizedAttribute(String),
}

impl GenError {
    /// The diagnostic handed to the author when generation fails.
    pub fn message(&self) -> (msg: String)
        ensures
            self is MissingJustification ==> msg@ == spec_missing_justification_message(),
            self matches GenError::UnrecognizedAttribute(name) ==> msg@
                == "unrecognized field attribute: "@ + name@,
    {
        match self {
            GenError::MissingJustification => String::from_str(
                "#[ignore_heap_size_of] should have an explanation, e.g. #[ignore_heap_size_of = \"because reasons\"]",
            ),
            GenError::UnrecognizedAttribute(name) => {
                let mut msg = String::from_str("unrecognized field attribute: ");
                msg.append(name.as_str());
                msg
            },
        }
    }
}

/// The fixed diagnostic for a bare exclusion marker: it instructs the author
/// to supply a justification.
pub open spec fn spec_missing_justification_message() -> Seq<char> {
    "#[ignore_heap_size_of] should have an explanation, e.g. #[ignore_heap_size_of = \"because reasons\"]"@
}

/// What the annotations of one field mean: measured (`Ok(false)`), excluded
/// with a justification (`Ok(true)`), or a generation failure.
///
/// The first attribute decides: a bare or list-shaped exclusion marker is a
/// missing justification, a marker with an explicit value excludes the
/// field, and any other attribute is unrecognised.
pub open spec fn spec_should_ignore(attrs: Seq<AttrShape>) -> Result<bool, GenError> {
    if attrs.len() == 0 {
        Ok(false)
    } else if attrs[0].name@ == spec_marker() {
        match attrs[0].value {
            AttrValue::Str(_) => Ok(true),
            _ => Err(GenError::MissingJustification),
        }
    } else {
        Err(GenError::UnrecognizedAttribute(attrs[0].name))
    }
}

/// Decide whether a field is excluded from measurement, failing generation
/// on a bare exclusion marker or an unrecognised attribute.
pub fn should_ignore_field(field: &FieldShape) -> (decision: Result<bool, GenError>)
    ensures
        decision == spec_should_ignore(field.attrs@),
{
    if field.attrs.len() == 0 {
        return Ok(false);
    }
    let attr = &field.attrs[0];
    let marker = String::from_str("ignore_heap_size_of");
    if attr.name == marker {
        match &attr.value {
            AttrValue::Str(_) => Ok(true),
            AttrValue::Bare => Err(GenError::MissingJustification),
            AttrValue::List => Err(GenError::MissingJustification),
        }
    } else {
        Err(GenError::UnrecognizedAttribute(attr.name.clone()))
    }
}

/// One summation term of a measurement plan: the index of an included field,
/// marked when the field is a fixed-size array to be expanded element-wise.
#[derive(Clone, Copy, Debug, PartialEq, Eq, Structural)]
pub enum Term {
    /// Measure the field at this index with a single capability call.
    Field(usize),
    /// The field at this index is a fixed-size array: iterate its elements
    /// and sum each element's contribution individually.
    ArrayField(usize),
}

impl Term {
    /// The index of the field this term measures.
    pub open spec fn index(self) -> usize {
        match self {
            Term::Field(i) => i,
            Term::ArrayField(i) => i,
        }
    }
}

/// The term for the included field at index `i`.
pub open spec fn spec_term_for(i: usize, is_array: bool) -> Term {
    if is_array {
        Term::ArrayField(i)
    } else {
        Term::Field(i)
    }
}

/// The summation terms of one variant: its included fields in declaration
/// order, each with its array marking; or the first failure among its
/// field annotations.
pub open spec fn spec_variant_terms(fields: Seq<FieldShape>) -> Result<Seq<Term>, GenError>
    decreases fields.len(),
{
    if fields.len() == 0 {
        Ok(Seq::empty())
    } else {
        match spec_variant_terms(fields.drop_last()) {
            Err(e) => Err(e),
            Ok(terms) => match spec_should_ignore(fields.last().attrs@) {
                Err(e) => Err(e),
                Ok(true) => Ok(terms),
                Ok(false) => Ok(
                    terms.push(
                        spec_term_for((fields.len() - 1) as usize, fields.last().is_array),
                    ),
                ),
            },
        }
    }
}

/// Once a field annotation fails, the whole variant fails with the first
/// such failure: the terms of any extension of the fields still carry it.
proof fn lemma_variant_terms_propagates_error(fields: Seq<FieldShape>, i: int)
    requires
        0 <= i < fields.len(),
        spec_variant_terms(fields.take(i)) is Ok,
        spec_should_ignore(fields[i].attrs@) is Err,
    ensures
        spec_variant_terms(fields) == Err::<Seq<Term>, GenError>(
            spec_should_ignore(fields[i].attrs@)->Err_0,
        ),
    decreases fields.len(),
{
    if i == fields.len() - 1 {
        assert(fields.drop_last() =~= fields.take(i));
    } else {
        assert(fields.drop_last().take(i) =~= fields.take(i));
        assert(fields.drop_last()[i] == fields[i]);
        lemma_variant_terms_propagates_error(fields.drop_last(), i);
    }
}

/// The terms of one more field: unchanged when it is excluded, extended by
/// its term when it is measured.
proof fn lemma_variant_terms_step(fields: Seq<FieldShape>, i: int)
    requires
        0 <= i < fields.len(),
    ensures
        spec_variant_terms(fields.take(i + 1)) == (match spec_variant_terms(fields.take(i)) {
            Err(e) => Err::<Seq<Term>, GenError>(e),
            Ok(terms) => match spec_should_ignore(fields[i].attrs@) {
                Err(e) => Err(e),
                Ok(true) => Ok(terms),
                Ok(false) => Ok(terms.push(spec_term_for(i as usize, fields[i].is_array))),
            },
        }),
{
    assert(fields.take(i + 1).drop_last() =~= fields.take(i));
    assert(fields.take(i + 1).last() == fields[i]);
}

/// Analyze the fields of one variant into its summation terms, or fail with
/// the first erroneous field annotation.
pub fn analyze_variant(fields: &Vec<FieldShape>) -> (plan: Result<Vec<Term>, GenError>)
    ensures
        match plan {
            Ok(terms) => spec_variant_terms(fields@) == Ok::<Seq<Term>, GenError>(terms@),
            Err(e) => spec_variant_terms(fields@) == Err::<Seq<Term>, GenError>(e),
        },
{
    let mut terms: Vec<Term> = Vec::new();
    let mut i: usize = 0;
    proof {
        assert(fields@.take(0) =~= Seq::<FieldShape>::empty());
    }
    while i < fields.len()
        invariant
            i <= fields.len(),
            spec_variant_terms(fields@.take(i as int)) == Ok::<Seq<Term>, GenError>(terms@),
        decreases fields.len() - i,
    {
        proof {
            lemma_variant_terms_step(fields@, i as int);
        }
        match should_ignore_field(&fields[i]) {
            Err(e) => {
                proof {
                    lemma_variant_terms_propagates_error(fields@, i as int);
                }
                return Err(e);
            },
            Ok(true) => {},
            Ok(false) => {
                if fields[i].is_array {
                    terms.push(Term::ArrayField(i));
                } else {
                    terms.push(Term::Field(i));
                }
            },
        }
        i = i + 1;
    }
    proof {
        assert(fields@.take(i as int) =~= fields@);
    }
    Ok(terms)
}

/// The summation terms of one variant of a measurement plan.
pub struct VariantPlan {
    /// The included fields, in declaration order.
    pub terms: Vec<Term>,
}

/// A measurement plan: per variant, the summation terms of its included
/// fields.  A record's plan has exactly one variant.
pub struct MeasurePlan {
    /// One entry per variant, in declaration order.
    pub variants: Vec<VariantPlan>,
}

impl MeasurePlan {
    /// The plan as a sequence of term sequences, one per variant.
    pub open spec fn plans(&self) -> Seq<Seq<Term>> {
        self.variants@.map_values(|v: VariantPlan| v.terms@)
    }
}

/// The per-variant terms of a tagged union, or the first failure among all
/// its variants' field annotations.
pub open spec fn spec_union_plans(variants: Seq<VariantShape>) -> Result<Seq<Seq<Term>>, GenError>
    decreases variants.len(),
{
    if variants.len() == 0 {
        Ok(Seq::empty())
    } else {
        match spec_union_plans(variants.drop_last()) {
            Err(e) => Err(e),
            Ok(plans) => match spec_variant_terms(variants.last().fields.list@) {
                Err(e) => Err(e),
                Ok(terms) => Ok(plans.push(terms)),
            },
        }
    }
}

/// The measurement plan of a shape: one variant for a record, one per case
/// for a tagged union; or the first failure among the field annotations.
pub open spec fn spec_plan(shape: &TypeShape) -> Result<Seq<Seq<Term>>, GenError> {
    match shape.kind {
        ShapeKind::Record(fields) => match spec_variant_terms(fields.list@) {
            Err(e) => Err(e),
            Ok(terms) => Ok(seq![terms]),
        },
        ShapeKind::TaggedUnion(variants) => spec_union_plans(variants@),
    }
}

/// Once a variant fails, the whole union fails with that first failure.
proof fn lemma_union_plans_propagates_error(variants: Seq<VariantShape>, i: int)
    requires
        0 <= i < variants.len(),
        spec_union_plans(variants.take(i)) is Ok,
        spec_variant_terms(variants[i].fields.list@) is Err,
    ensures
        spec_union_plans(variants) == Err::<Seq<Seq<Term>>, GenError>(
            spec_variant_terms(variants[i].fields.list@)->Err_0,
        ),
    decreases variants.len(),
{
    if i == variants.len() - 1 {
        assert(variants.drop_last() =~= variants.take(i));
    } else {
        assert(variants.drop_last().take(i) =~= variants.take(i));
        assert(variants.drop_last()[i] == variants[i]);
        lemma_union_plans_propagates_error(variants.drop_last(), i);
    }
}

/// The plans of one more variant extend the plans of the variants before it.
proof fn lemma_union_plans_step(variants: Seq<VariantShape>, i: int)
    requires
        0 <= i < variants.len(),
    ensures
        spec_union_plans(variants.take(i + 1)) == (match spec_union_plans(variants.take(i)) {
            Err(e) => Err::<Seq<Seq<Term>>, GenError>(e),
            Ok(plans) => match spec_variant_terms(variants[i].fields.list@) {
                Err(e) => Err(e),
                Ok(terms) => Ok(plans.push(terms)),
            },
        }),
{
    assert(variants.take(i + 1).drop_last() =~= variants.take(i));
    assert(variants.take(i + 1).last() == variants[i]);
}

/// Analyze a shape into its measurement plan: per variant, the included
/// fields in declaration order, array fields marked for element-wise
/// expansion.  Generation fails as a whole on the first bare exclusion
/// marker or unrecognised attribute; no partial plan is produced.
pub fn analyze(shape: &TypeShape) -> (result: Result<MeasurePlan, GenError>)
    ensures
        match result {
            Ok(plan) => spec_plan(shape) == Ok::<Seq<Seq<Term>>, GenError>(plan.plans()),
            Err(e) => spec_plan(shape) == Err::<Seq<Seq<Term>>, GenError>(e),
        },
{
    match &shape.kind {
        ShapeKind::Record(fields) => {
            match analyze_variant(&fields.list) {
                Ok(terms) => {
                    let mut variants: Vec<VariantPlan> = Vec::new();
                    variants.push(VariantPlan { terms });
                    let plan = MeasurePlan { variants };
                    proof {
                        assert(plan.plans() =~= seq![plan.variants@[0].terms@]);
                    }
                    Ok(plan)
                },
                Err(e) => Err(e),
            }
        },
        ShapeKind::TaggedUnion(variants) => {
            let mut plans: Vec<VariantPlan> = Vec::new();
            let mut i: usize = 0;
            proof {
                assert(variants@.take(0) =~= Seq::<VariantShape>::empty());
                assert(plans@.map_values(|v: VariantPlan| v.terms@) =~= Seq::<Seq<Term>>::empty());
            }
            while i < variants.len()
                invariant
                    i <= variants.len(),
                    shape.kind == ShapeKind::TaggedUnion(*variants),
                    spec_union_plans(variants@.take(i as int)) == Ok::<Seq<Seq<Term>>, GenError>(
                        plans@.map_values(|v: VariantPlan| v.terms@),
                    ),
                decreases variants.len() - i,
            {
                proof {
                    lemma_union_plans_step(variants@, i as int);
                }
                match analyze_variant(&variants[i].fields.list) {
                    Ok(terms) => {
                        let ghost before = plans@;
                        plans.push(VariantPlan { terms });
                        proof {
                            assert(plans@.map_values(|v: VariantPlan| v.terms@) =~= before
                                .map_values(|v: VariantPlan| v.terms@).push(
                                plans@.last().terms@,
                            ));
                        }
                    },
                    Err(e) => {
                        proof {
                            lemma_union_plans_propagates_error(variants@, i as int);
                        }
                        return Err(e);
                    },
                }
                i = i + 1;
            }
            proof {
                assert(variants@.take(i as int) =~= variants@);
            }
            Ok(MeasurePlan { variants: plans })
        },
    }
}

// ---------------------------------------------------------------------------
// Evaluating a plan.
// ---------------------------------------------------------------------------

/// The measured contribution of one field, as handed to a plan: a single
/// capability result, or the per-element results of a fixed-size array
/// field.
pub enum FieldMeasure {
    /// The contribution of an ordinary field.
    Single(usize),
    /// The per-element contributions of a fixed-size array field.
    Array(Vec<usize>),
}

/// The element-wise total of an array field's contributions.
pub open spec fn spec_array_total(sizes: Seq<usize>) -> nat
    decreases sizes.len(),
{
    if sizes.len() == 0 {
        0
    } else {
        (sizes[0] + spec_array_total(sizes.drop_first())) as nat
    }
}

/// The term refers to a field that exists and has the matching kind of
/// measurement.
pub open spec fn spec_term_ok(term: Term, fields: Seq<FieldMeasure>) -> bool {
    &&& term.index() < fields.len()
    &&& (match term {
        Term::Field(i) => fields[i as int] is Single,
        Term::ArrayField(i) => fields[i as int] is Array,
    })
}

/// Every term of the plan refers to a matching field measurement.
pub open spec fn spec_terms_ok(terms: Seq<Term>, fields: Seq<FieldMeasure>) -> bool {
    forall|j: int| 0 <= j < terms.len() ==> #[trigger] spec_term_ok(terms[j], fields)
}

/// The contribution of one term: the field's single result, or the
/// element-wise total of an array field.
pub open spec fn spec_term_value(term: Term, fields: Seq<FieldMeasure>) -> nat {
    match fields[term.index() as int] {
        FieldMeasure::Single(size) => size as nat,
        FieldMeasure::Array(sizes) => spec_array_total(sizes@),
    }
}

/// The contribution of a variant's terms: the sum of the included fields'
/// contributions, and of nothing else.
pub open spec fn spec_eval_terms(terms: Seq<Term>, fields: Seq<FieldMeasure>) -> nat
    decreases terms.len(),
{
    if terms.len() == 0 {
        0
    } else {
        spec_term_value(terms[0], fields) + spec_eval_terms(terms.drop_first(), fields)
    }
}

/// Sum the per-element contributions of an array field.
fn array_total(sizes: &Vec<usize>) -> (total: usize)
    requires
        spec_array_total(sizes@) <= usize::MAX,
    ensures
        total == spec_array_total(sizes@),
{
    let ghost whole = spec_array_total(sizes@);
    let mut sum: usize = 0;
    let mut i: usize = 0;
    proof {
        assert(sizes@.skip(0) =~= sizes@);
    }
    while i < sizes.len()
        invariant
            i <= sizes.len(),
            sum + spec_array_total(sizes@.skip(i as int)) == whole,
            whole <= usize::MAX,
        decreases sizes.len() - i,
    {
        proof {
            assert(sizes@.skip(i as int)[0] == sizes@[i as int]);
            assert(sizes@.skip(i as int).drop_first() =~= sizes@.skip(i + 1));
        }
        sum = sum + sizes[i];
        i = i + 1;
    }
    proof {
        assert(sizes@.skip(i as int).len() == 0);
    }
    sum
}

/// Evaluate one variant's terms against the fields' measured contributions:
/// the sum of the included fields only, with array fields expanded element
/// by element.  A field outside the terms is never read.
pub fn eval_variant_plan(plan: &VariantPlan, fields: &Vec<FieldMeasure>) -> (total: usize)
    requires
        spec_terms_ok(plan.terms@, fields@),
        spec_eval_terms(plan.terms@, fields@) <= usize::MAX,
    ensures
        total == spec_eval_terms(plan.terms@, fields@),
{
    let ghost whole = spec_eval_terms(plan.terms@, fields@);
    let mut sum: usize = 0;
    let mut i: usize = 0;
    proof {
        assert(plan.terms@.skip(0) =~= plan.terms@);
    }
    while i < plan.terms.len()
        invariant
            i <= plan.terms.len(),
            spec_terms_ok(plan.terms@, fields@),
            sum + spec_eval_terms(plan.terms@.skip(i as int), fields@) == whole,
            whole <= usize::MAX,
        decreases plan.terms.len() - i,
    {
        proof {
            assert(plan.terms@.skip(i as int)[0] == plan.terms@[i as int]);
            assert(plan.terms@.skip(i as int).drop_first() =~= plan.terms@.skip(i + 1));
            assert(spec_term_ok(plan.terms@[i as int], fields@));
        }
        let contribution: usize = match plan.terms[i] {
            Term::Field(index) => {
                match &fields[index] {
                    FieldMeasure::Single(size) => *size,
                    FieldMeasure::Array(_) => vstd::pervasive::unreached(),
                }
            },
            Term::ArrayField(index) => {
                match &fields[index] {
                    FieldMeasure::Array(sizes) => array_total(sizes),
                    FieldMeasure::Single(_) => vstd::pervasive::unreached(),
                }
            },
        };
        sum = sum + contribution;
        i = i + 1;
    }
    proof {
        assert(plan.terms@.skip(i as int).len() == 0);
    }
    sum
}

/// Measure a value of a tagged union through its plan: dispatch on the
/// active variant and sum only that variant's included fields.  The other
/// variants' plans play no part in the result.
pub fn measure_variant(plan: &MeasurePlan, variant: usize, fields: &Vec<FieldMeasure>) -> (total:
    usize)
    requires
        variant < plan.variants@.len(),
        spec_terms_ok(plan.variants@[variant as int].terms@, fields@),
        spec_eval_terms(plan.variants@[variant as int].terms@, fields@) <= usize::MAX,
    ensures
        total == spec_eval_terms(plan.variants@[variant as int].terms@, fields@),
{
    eval_variant_plan(&plan.variants[variant], fields)
}

/// Generate the implementation of the measurement capability for a shape.
///
/// On success the result is the complete implementation text; on a bare
/// exclusion marker or an unrecognised attribute the generation fails as a
/// whole with that first failure, and no partial or degraded text is ever
/// produced.
pub fn heapsizeof_derive(shape: &TypeShape) -> (result: Result<String, GenError>)
    ensures
        match result {
            Ok(code) => spec_plan(shape) is Ok && code@ == crate::emit::spec_emit(shape),
            Err(e) => spec_plan(shape) == Err::<Seq<Seq<Term>>, GenError>(e),
        },
{
    match analyze(shape) {
        Ok(_) => Ok(crate::emit::emit_impl(shape)),
        Err(e) => Err(e),
    }
}

// ---------------------------------------------------------------------------
// Laws of the analyzer and of plan evaluation.
// ---------------------------------------------------------------------------

/// Every annotation of every field in `fields` is valid: no bare exclusion
/// marker and no unrecognised attribute.
pub open spec fn spec_fields_valid(fields: Seq<FieldShape>) -> bool {
    forall|i: int| 0 <= i < fields.len() ==> #[trigger] spec_should_ignore(fields[i].attrs@) is Ok
}

/// Every annotation of every field of every variant of the shape is valid.
pub open spec fn spec_shape_valid(shape: &TypeShape) -> bool {
    match shape.kind {
        ShapeKind::Record(fields) => spec_fields_valid(fields.list@),
        ShapeKind::TaggedUnion(variants) => forall|v: int|
            0 <= v < variants@.len() ==> spec_fields_valid(#[trigger] variants@[v].fields.list@),
    }
}

/// A variant's terms exist exactly when every one of its field annotations
/// is valid.
pub proof fn lemma_variant_terms_ok_iff(fields: Seq<FieldShape>)
    ensures
        spec_variant_terms(fields) is Ok <==> spec_fields_valid(fields),
    decreases fields.len(),
{
    if fields.len() > 0 {
        lemma_variant_terms_ok_iff(fields.drop_last());
        assert(forall|i: int|
            0 <= i < fields.drop_last().len() ==> fields.drop_last()[i] == fields[i]);
        if spec_fields_valid(fields) {
            assert(spec_fields_valid(fields.drop_last()));
            assert(spec_should_ignore(fields.last().attrs@) is Ok);
        }
        if spec_variant_terms(fields) is Ok {
            assert(forall|i: int|
                0 <= i < fields.len() - 1 ==> #[trigger] spec_should_ignore(fields[i].attrs@)
                    == spec_should_ignore(fields.drop_last()[i].attrs@));
            assert(spec_should_ignore(fields.last().attrs@) is Ok);
            assert(fields.last() == fields[fields.len() - 1]);
        }
    }
}

/// A union's plans exist exactly when every variant's annotations are valid.
proof fn lemma_union_plans_ok_iff(variants: Seq<VariantShape>)
    ensures
        spec_union_plans(variants) is Ok <==> (forall|v: int|
            0 <= v < variants.len() ==> spec_fields_valid(
                #[trigger] variants[v].fields.list@,
            )),
    decreases variants.len(),
{
    if variants.len() > 0 {
        lemma_union_plans_ok_iff(variants.drop_last());
        lemma_variant_terms_ok_iff(variants.last().fields.list@);
        assert(forall|v: int|
            0 <= v < variants.drop_last().len() ==> variants.drop_last()[v] == variants[v]);
        assert(variants.last() == variants[variants.len() - 1]);
    }
}

/// Generation succeeds exactly when no field of any variant carries a bare
/// exclusion marker or an unrecognised attribute; it never proceeds with a
/// partial result, and it never fails for any other reason.
pub proof fn lemma_generation_succeeds_iff(shape: &TypeShape)
    ensures
        spec_plan(shape) is Ok <==> spec_shape_valid(shape),
{
    match shape.kind {
        ShapeKind::Record(fields) => {
            lemma_variant_terms_ok_iff(fields.list@);
        },
        ShapeKind::TaggedUnion(variants) => {
            lemma_union_plans_ok_iff(variants@);
        },
    }
}

/// A successful union analysis yields exactly one plan per variant, in
/// declaration order.
proof fn lemma_union_plans_length(variants: Seq<VariantShape>)
    requires
        spec_union_plans(variants) is Ok,
    ensures
        spec_union_plans(variants)->Ok_0.len() == variants.len(),
        forall|v: int|
            0 <= v < variants.len() ==> spec_union_plans(variants)->Ok_0[v]
                == spec_variant_terms(#[trigger] variants[v].fields.list@)->Ok_0,
    decreases variants.len(),
{
    if variants.len() > 0 {
        lemma_union_plans_length(variants.drop_last());
        assert(forall|v: int|
            0 <= v < variants.drop_last().len() ==> variants.drop_last()[v] == variants[v]);
        assert(variants.last() == variants[variants.len() - 1]);
    }
}

/// A plan covers every variant: a record's plan has exactly one entry, and a
/// union's plan has one entry per declared case, each listing that variant's
/// own included fields.
pub proof fn lemma_plan_covers_every_variant(shape: &TypeShape, plans: Seq<Seq<Term>>)
    requires
        spec_plan(shape) == Ok::<Seq<Seq<Term>>, GenError>(plans),
    ensures
        shape.kind matches ShapeKind::Record(fields) ==> plans.len() == 1 && plans[0]
            == spec_variant_terms(fields.list@)->Ok_0,
        shape.kind matches ShapeKind::TaggedUnion(variants) ==> plans.len() == variants@.len()
            && (forall|v: int|
            0 <= v < variants@.len() ==> plans[v] == spec_variant_terms(
                #[trigger] variants@[v].fields.list@,
            )->Ok_0),
{
    match shape.kind {
        ShapeKind::Record(_) => {},
        ShapeKind::TaggedUnion(variants) => {
            lemma_union_plans_length(variants@);
        },
    }
}

/// An excluded field is omitted from the plan entirely, and nothing else is:
/// a variant's terms list exactly its measured (non-excluded) fields, in
/// declaration order, each marked as an array exactly when the field is one.
pub proof fn lemma_plan_lists_included_fields(fields: Seq<FieldShape>, terms: Seq<Term>)
    requires
        fields.len() <= usize::MAX,
        spec_variant_terms(fields) == Ok::<Seq<Term>, GenError>(terms),
    ensures
        forall|j: int| 0 <= j < terms.len() ==> (#[trigger] terms[j]).index() < fields.len(),
        forall|j: int|
            0 <= j < terms.len() ==> spec_should_ignore(
                fields[(#[trigger] terms[j]).index() as int].attrs@,
            ) == Ok::<bool, GenError>(false),
        forall|j: int|
            0 <= j < terms.len() ==> (#[trigger] terms[j]) == spec_term_for(
                terms[j].index(),
                fields[terms[j].index() as int].is_array,
            ),
        forall|j1: int, j2: int|
            0 <= j1 < j2 < terms.len() ==> (#[trigger] terms[j1]).index() < (
            #[trigger] terms[j2]).index(),
        forall|i: int|
            0 <= i < fields.len() && spec_should_ignore(#[trigger] fields[i].attrs@) == Ok::<
                bool,
                GenError,
            >(false) ==> exists|j: int| 0 <= j < terms.len() && (#[trigger] terms[j]).index() == i,
    decreases fields.len(),
{
    if fields.len() > 0 {
        let prefix = fields.drop_last();
        let prior = spec_variant_terms(prefix)->Ok_0;
        lemma_plan_lists_included_fields(prefix, prior);
        assert(forall|i: int| 0 <= i < prefix.len() ==> prefix[i] == fields[i]);
        assert(fields.last() == fields[fields.len() - 1]);
        match spec_should_ignore(fields.last().attrs@) {
            Ok(false) => {
                assert(terms == prior.push(
                    spec_term_for((fields.len() - 1) as usize, fields.last().is_array),
                ));
                assert(forall|j: int| 0 <= j < prior.len() ==> terms[j] == prior[j]);
                assert(terms.last().index() == fields.len() - 1);
                assert(forall|i: int|
                    0 <= i < fields.len() && spec_should_ignore(#[trigger] fields[i].attrs@)
                        == Ok::<bool, GenError>(false) ==> exists|j: int|
                        0 <= j < terms.len() && (#[trigger] terms[j]).index() == i) by {
                    assert forall|i: int|
                        0 <= i < fields.len() && spec_should_ignore(fields[i].attrs@) == Ok::<
                            bool,
                            GenError,
                        >(false) implies exists|j: int|
                        0 <= j < terms.len() && (#[trigger] terms[j]).index() == i by {
                        if i == fields.len() - 1 {
                            assert(terms[terms.len() - 1].index() == i);
                        } else {
                            let j = choose|j: int|
                                0 <= j < prior.len() && (#[trigger] prior[j]).index() == i;
                            assert(terms[j].index() == i);
                        }
                    }
                }
            },
            Ok(true) => {
                assert(terms == prior);
            },
            Err(_) => {},
        }
    }
}

/// The result of evaluating a plan does not depend on the contribution of
/// any field outside its terms: an excluded field's value is never
/// inspected.  Two field-measure assignments that agree on the fields the
/// terms refer to evaluate to the same total.
pub proof fn lemma_eval_ignores_unplanned_fields(
    terms: Seq<Term>,
    fields1: Seq<FieldMeasure>,
    fields2: Seq<FieldMeasure>,
)
    requires
        forall|j: int|
            0 <= j < terms.len() ==> fields2[(#[trigger] terms[j]).index() as int]
                == fields1[terms[j].index() as int],
    ensures
        spec_eval_terms(terms, fields1) == spec_eval_terms(terms, fields2),
    decreases terms.len(),
{
    if terms.len() > 0 {
        assert(forall|j: int|
            0 <= j < terms.drop_first().len() ==> terms.drop_first()[j] == terms[j + 1]);
        lemma_eval_ignores_unplanned_fields(terms.drop_first(), fields1, fields2);
        assert(terms[0].index() == (terms[0]).index());
        assert(fields2[terms[0].index() as int] == fields1[terms[0].index() as int]);
    }
}

/// Measuring through one variant of a plan reads only that variant's terms:
/// two plans that agree on the selected variant yield the same total,
/// whatever their other variants hold.  Selecting a different variant can
/// therefore never contaminate the result.
pub proof fn lemma_variant_isolation(
    plans1: Seq<Seq<Term>>,
    plans2: Seq<Seq<Term>>,
    variant: int,
    fields: Seq<FieldMeasure>,
)
    requires
        0 <= variant < plans1.len(),
        0 <= variant < plans2.len(),
        plans1[variant] == plans2[variant],
    ensures
        spec_eval_terms(plans1[variant], fields) == spec_eval_terms(plans2[variant], fields),
{
}

/// A fixed-size array field of `n` elements, each contributing `k`,
/// contributes exactly `n * k` through its element-wise expansion.
pub proof fn lemma_uniform_array_total(sizes: Seq<usize>, k: usize)
    requires
        forall|i: int| 0 <= i < sizes.len() ==> sizes[i] == k,
    ensures
        spec_array_total(sizes) == sizes.len() * k,
    decreases sizes.len(),
{
    if sizes.len() == 0 {
        assert(0 * k == 0) by (nonlinear_arith);
    } else {
        assert(forall|i: int|
            0 <= i < sizes.drop_first().len() ==> sizes.drop_first()[i] == sizes[i + 1]);
        lemma_uniform_array_total(sizes.drop_first(), k);
        assert(k + (sizes.len() - 1) * k == sizes.len() * k) by (nonlinear_arith);
    }
}

} // verus!
