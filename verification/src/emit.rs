//! Emission of the generated implementation as source text.
//!
//! The analyzer's plan says *what* is summed; this module says it as code: a
//! dispatch on the active variant, binding each included field, one
//! summation statement per included field, with fixed-size array fields
//! expanded by a per-element loop.  An excluded field is not bound and no
//! statement is emitted for it.  A generic source type gets one capability
//! bound per type parameter, so that generic composition stays well typed.

use vstd::prelude::*;

use crate::generate::{spec_should_ignore, should_ignore_field};
use crate::shape::{FieldShape, Fields, ShapeKind, TypeShape, VariantShape};
use vstd::string::StringExecFns;

verus! {

// ---------------------------------------------------------------------------
// Decimal rendering of field indices and registered constants.
// ---------------------------------------------------------------------------

/// The single decimal digit `d` as text.
pub open spec fn spec_digit(d: nat) -> Seq<char> {
    if d == 0 {
        "0"@
    } else if d == 1 {
        "1"@
    } else if d == 2 {
        "2"@
    } else if d == 3 {
        "3"@
    } else if d == 4 {
        "4"@
    } else if d == 5 {
        "5"@
    } else if d == 6 {
        "6"@
    } else if d == 7 {
        "7"@
    } else if d == 8 {
        "8"@
    } else {
        "9"@
    }
}

/// The number `n` in decimal, most significant digit first.
pub open spec fn spec_decimal(n: nat) -> Seq<char>
    decreases n,
{
    if n < 10 {
        spec_digit(n)
    } else {
        spec_decimal(n / 10) + spec_digit(n % 10)
    }
}

fn push_digit(out: &mut String, d: usize)
    requires
        d < 10,
    ensures
        final(out)@ == old(out)@ + spec_digit(d as nat),
{
    if d == 0 {
        out.append("0");
    } else if d == 1 {
        out.append("1");
    } else if d == 2 {
        out.append("2");
    } else if d == 3 {
        out.append("3");
    } else if d == 4 {
        out.append("4");
    } else if d == 5 {
        out.append("5");
    } else if d == 6 {
        out.append("6");
    } else if d == 7 {
        out.append("7");
    } else if d == 8 {
        out.append("8");
    } else {
        out.append("9");
    }
}

pub(crate) fn push_decimal(out: &mut String, n: usize)
    ensures
        final(out)@ == old(out)@ + spec_decimal(n as nat),
    decreases n,
{
    if n < 10 {
        push_digit(out, n);
    } else {
        proof {
            assert(n / 10 < n) by (nonlinear_arith)
                requires
                    n >= 10,
            ;
        }
        push_decimal(out, n / 10);
        push_digit(out, n % 10);
        proof {
            assert(old(out)@ + (spec_decimal((n / 10) as nat) + spec_digit((n % 10) as nat))
                =~= (old(out)@ + spec_decimal((n / 10) as nat)) + spec_digit((n % 10) as nat));
        }
    }
}

// ---------------------------------------------------------------------------
// Bindings and field names.
// ---------------------------------------------------------------------------

/// The addressable name the generator assigns to the field at index `i`.
pub open spec fn spec_binding(i: nat) -> Seq<char> {
    "f"@ + spec_decimal(i)
}

fn push_binding(out: &mut String, i: usize)
    ensures
        final(out)@ == old(out)@ + spec_binding(i as nat),
{
    out.append("f");
    push_decimal(out, i);
    proof {
        assert(old(out)@ + ("f"@ + spec_decimal(i as nat))
            =~= (old(out)@ + "f"@) + spec_decimal(i as nat));
    }
}

/// The declared name of a field, or nothing for a positional field.
pub open spec fn spec_field_name(field: FieldShape) -> Seq<char> {
    match field.name {
        Some(name) => name@,
        None => Seq::empty(),
    }
}

/// The field is measured: its annotations resolve to "not excluded".
pub open spec fn spec_included(field: FieldShape) -> bool {
    spec_should_ignore(field.attrs@) == Ok::<bool, crate::generate::GenError>(false)
}

// ---------------------------------------------------------------------------
// Patterns: bind the included fields of the active variant.
// ---------------------------------------------------------------------------

/// The named-field bindings of a pattern: one `name: ref fI,` per included
/// field; an excluded field is not bound.
pub open spec fn spec_named_bindings(fields: Seq<FieldShape>) -> Seq<char>
    decreases fields.len(),
{
    if fields.len() == 0 {
        Seq::empty()
    } else {
        spec_named_bindings(fields.drop_last()) + (if spec_included(fields.last()) {
            " "@ + spec_field_name(fields.last()) + ": ref "@ + spec_binding(
                (fields.len() - 1) as nat,
            ) + ","@
        } else {
            Seq::<char>::empty()
        })
    }
}

/// The positional bindings of a pattern: `ref fI` for an included field and
/// `_` for an excluded one, comma separated.
pub open spec fn spec_positional_bindings(fields: Seq<FieldShape>) -> Seq<char>
    decreases fields.len(),
{
    if fields.len() == 0 {
        Seq::empty()
    } else {
        spec_positional_bindings(fields.drop_last()) + (if fields.len() == 1 {
            Seq::<char>::empty()
        } else {
            ", "@
        }) + (if spec_included(fields.last()) {
            "ref "@ + spec_binding((fields.len() - 1) as nat)
        } else {
            "_"@
        })
    }
}

/// The pattern of one variant: the bare path for a unit variant, named
/// bindings closed by `..` for a brace variant, positional bindings for a
/// parenthesised variant.
pub open spec fn spec_pattern(path: Seq<char>, fields: Fields) -> Seq<char> {
    if fields.list@.len() == 0 {
        path
    } else if fields.named {
        path + " {"@ + spec_named_bindings(fields.list@) + " .. }"@
    } else {
        path + "("@ + spec_positional_bindings(fields.list@) + ")"@
    }
}

fn push_named_bindings(out: &mut String, fields: &Vec<FieldShape>)
    ensures
        final(out)@ == old(out)@ + spec_named_bindings(fields@),
{
    let ghost base = out@;
    let mut i: usize = 0;
    proof {
        assert(fields@.take(0) =~= Seq::<FieldShape>::empty());
        assert(base + spec_named_bindings(fields@.take(0)) =~= base);
    }
    while i < fields.len()
        invariant
            i <= fields.len(),
            out@ == base + spec_named_bindings(fields@.take(i as int)),
        decreases fields.len() - i,
    {
        proof {
            assert(fields@.take(i + 1).drop_last() =~= fields@.take(i as int));
            assert(fields@.take(i + 1).last() == fields@[i as int]);
        }
        let included = match should_ignore_field(&fields[i]) {
            Ok(false) => true,
            _ => false,
        };
        if included {
            out.append(" ");
            match &fields[i].name {
                Some(name) => out.append(name.as_str()),
                None => {},
            }
            out.append(": ref ");
            push_binding(out, i);
            out.append(",");
        }
        proof {
            assert(out@ =~= base + spec_named_bindings(fields@.take(i + 1)));
        }
        i = i + 1;
    }
    proof {
        assert(fields@.take(i as int) =~= fields@);
    }
}

fn push_positional_bindings(out: &mut String, fields: &Vec<FieldShape>)
    ensures
        final(out)@ == old(out)@ + spec_positional_bindings(fields@),
{
    let ghost base = out@;
    let mut i: usize = 0;
    proof {
        assert(fields@.take(0) =~= Seq::<FieldShape>::empty());
        assert(base + spec_positional_bindings(fields@.take(0)) =~= base);
    }
    while i < fields.len()
        invariant
            i <= fields.len(),
            out@ == base + spec_positional_bindings(fields@.take(i as int)),
        decreases fields.len() - i,
    {
        proof {
            assert(fields@.take(i + 1).drop_last() =~= fields@.take(i as int));
            assert(fields@.take(i + 1).last() == fields@[i as int]);
        }
        if i > 0 {
            out.append(", ");
        }
        let included = match should_ignore_field(&fields[i]) {
            Ok(false) => true,
            _ => false,
        };
        if included {
            out.append("ref ");
            push_binding(out, i);
        } else {
            out.append("_");
        }
        proof {
            assert(out@ =~= base + spec_positional_bindings(fields@.take(i + 1)));
        }
        i = i + 1;
    }
    proof {
        assert(fields@.take(i as int) =~= fields@);
    }
}

fn push_pattern(out: &mut String, path: &String, fields: &Fields)
    ensures
        final(out)@ == old(out)@ + spec_pattern(path@, *fields),
{
    out.append(path.as_str());
    if fields.list.len() == 0 {
    } else if fields.named {
        out.append(" {");
        push_named_bindings(out, &fields.list);
        out.append(" .. }");
        proof {
            assert(out@ =~= old(out)@ + spec_pattern(path@, *fields));
        }
    } else {
        out.append("(");
        push_positional_bindings(out, &fields.list);
        out.append(")");
        proof {
            assert(out@ =~= old(out)@ + spec_pattern(path@, *fields));
        }
    }
}

// ---------------------------------------------------------------------------
// Summation statements.
// ---------------------------------------------------------------------------

/// The summation statements of one variant: per included field, one
/// capability call, or a per-element loop when the field is a fixed-size
/// array; nothing at all for an excluded field.
pub open spec fn spec_statements(fields: Seq<FieldShape>) -> Seq<char>
    decreases fields.len(),
{
    if fields.len() == 0 {
        Seq::empty()
    } else {
        spec_statements(fields.drop_last()) + (if spec_included(fields.last()) {
            if fields.last().is_array {
                "                for item in "@ + spec_binding((fields.len() - 1) as nat)
                    + ".iter() { sum += item.heap_size_of_children(heap_size_of); }\n"@
            } else {
                "                sum += "@ + spec_binding((fields.len() - 1) as nat)
                    + ".heap_size_of_children(heap_size_of);\n"@
            }
        } else {
            Seq::<char>::empty()
        })
    }
}

fn push_statements(out: &mut String, fields: &Vec<FieldShape>)
    ensures
        final(out)@ == old(out)@ + spec_statements(fields@),
{
    let ghost base = out@;
    let mut i: usize = 0;
    proof {
        assert(fields@.take(0) =~= Seq::<FieldShape>::empty());
        assert(base + spec_statements(fields@.take(0)) =~= base);
    }
    while i < fields.len()
        invariant
            i <= fields.len(),
            out@ == base + spec_statements(fields@.take(i as int)),
        decreases fields.len() - i,
    {
        proof {
            assert(fields@.take(i + 1).drop_last() =~= fields@.take(i as int));
            assert(fields@.take(i + 1).last() == fields@[i as int]);
        }
        let included = match should_ignore_field(&fields[i]) {
            Ok(false) => true,
            _ => false,
        };
        if included {
            if fields[i].is_array {
                out.append("                for item in ");
                push_binding(out, i);
                out.append(".iter() { sum += item.heap_size_of_children(heap_size_of); }\n");
            } else {
                out.append("                sum += ");
                push_binding(out, i);
                out.append(".heap_size_of_children(heap_size_of);\n");
            }
        }
        proof {
            assert(out@ =~= base + spec_statements(fields@.take(i + 1)));
        }
        i = i + 1;
    }
    proof {
        assert(fields@.take(i as int) =~= fields@);
    }
}

// ---------------------------------------------------------------------------
// Dispatch arms.
// ---------------------------------------------------------------------------

/// One dispatch arm: the variant's pattern, then its summation statements.
pub open spec fn spec_arm(path: Seq<char>, fields: Fields) -> Seq<char> {
    "            "@ + spec_pattern(path, fields) + " => {\n"@ + spec_statements(fields.list@)
        + "            }\n"@
}

fn push_arm(out: &mut String, path: &String, fields: &Fields)
    ensures
        final(out)@ == old(out)@ + spec_arm(path@, *fields),
{
    out.append("            ");
    push_pattern(out, path, fields);
    out.append(" => {\n");
    push_statements(out, &fields.list);
    out.append("            }\n");
    proof {
        assert(out@ =~= old(out)@ + spec_arm(path@, *fields));
    }
}

/// The dispatch arms of a tagged union: one per variant, keyed on the
/// variant's qualified path.
pub open spec fn spec_union_arms(ty: Seq<char>, variants: Seq<VariantShape>) -> Seq<char>
    decreases variants.len(),
{
    if variants.len() == 0 {
        Seq::empty()
    } else {
        spec_union_arms(ty, variants.drop_last()) + spec_arm(
            ty + "::"@ + variants.last().name@,
            variants.last().fields,
        )
    }
}

fn push_union_arms(out: &mut String, ty: &String, variants: &Vec<VariantShape>)
    ensures
        final(out)@ == old(out)@ + spec_union_arms(ty@, variants@),
{
    let ghost base = out@;
    let mut i: usize = 0;
    proof {
        assert(variants@.take(0) =~= Seq::<VariantShape>::empty());
        assert(base + spec_union_arms(ty@, variants@.take(0)) =~= base);
    }
    while i < variants.len()
        invariant
            i <= variants.len(),
            out@ == base + spec_union_arms(ty@, variants@.take(i as int)),
        decreases variants.len() - i,
    {
        proof {
            assert(variants@.take(i + 1).drop_last() =~= variants@.take(i as int));
            assert(variants@.take(i + 1).last() == variants@[i as int]);
        }
        let mut path = ty.clone();
        path.append("::");
        path.append(variants[i].name.as_str());
        proof {
            assert(path@ =~= ty@ + "::"@ + variants@[i as int].name@);
        }
        push_arm(out, &path, &variants[i].fields);
        proof {
            assert(out@ =~= base + spec_union_arms(ty@, variants@.take(i + 1)));
        }
        i = i + 1;
    }
    proof {
        assert(variants@.take(i as int) =~= variants@);
    }
}

// ---------------------------------------------------------------------------
// Generic parameters.
// ---------------------------------------------------------------------------

/// One capability bound per type parameter of the source type, appended to
/// the implementation's parameter list.
pub open spec fn spec_param_bounds(params: Seq<String>) -> Seq<char>
    decreases params.len(),
{
    if params.len() == 0 {
        Seq::empty()
    } else {
        spec_param_bounds(params.drop_last()) + ", "@ + params.last()@
            + ": heapsize::HeapSizeOf<Alloc>"@
    }
}

/// The type arguments after the type's name: nothing for a plain type, the
/// comma-separated parameter names in angle brackets otherwise.
pub open spec fn spec_param_args(params: Seq<String>) -> Seq<char>
    decreases params.len(),
{
    if params.len() == 0 {
        Seq::empty()
    } else {
        spec_param_args(params.drop_last()) + (if params.len() == 1 {
            "<"@
        } else {
            ", "@
        }) + params.last()@
    }
}

/// The full type-argument suffix, closed when any parameter exists.
pub open spec fn spec_ty_suffix(params: Seq<String>) -> Seq<char> {
    if params.len() == 0 {
        Seq::empty()
    } else {
        spec_param_args(params) + ">"@
    }
}

pub(crate) fn push_param_bounds(out: &mut String, params: &Vec<String>)
    ensures
        final(out)@ == old(out)@ + spec_param_bounds(params@),
{
    let ghost base = out@;
    let mut i: usize = 0;
    proof {
        assert(params@.take(0) =~= Seq::<String>::empty());
        assert(base + spec_param_bounds(params@.take(0)) =~= base);
    }
    while i < params.len()
        invariant
            i <= params.len(),
            out@ == base + spec_param_bounds(params@.take(i as int)),
        decreases params.len() - i,
    {
        proof {
            assert(params@.take(i + 1).drop_last() =~= params@.take(i as int));
            assert(params@.take(i + 1).last() == params@[i as int]);
        }
        out.append(", ");
        out.append(params[i].as_str());
        out.append(": heapsize::HeapSizeOf<Alloc>");
        proof {
            assert(out@ =~= base + spec_param_bounds(params@.take(i + 1)));
        }
        i = i + 1;
    }
    proof {
        assert(params@.take(i as int) =~= params@);
    }
}

pub(crate) fn push_ty_suffix(out: &mut String, params: &Vec<String>)
    ensures
        final(out)@ == old(out)@ + spec_ty_suffix(params@),
{
    let ghost base = out@;
    if params.len() == 0 {
        return ;
    }
    let mut i: usize = 0;
    proof {
        assert(params@.take(0) =~= Seq::<String>::empty());
        assert(base + spec_param_args(params@.take(0)) =~= base);
    }
    while i < params.len()
        invariant
            i <= params.len(),
            params@.len() > 0,
            out@ == base + spec_param_args(params@.take(i as int)),
        decreases params.len() - i,
    {
        proof {
            assert(params@.take(i + 1).drop_last() =~= params@.take(i as int));
            assert(params@.take(i + 1).last() == params@[i as int]);
        }
        if i == 0 {
            out.append("<");
        } else {
            out.append(", ");
        }
        out.append(params[i].as_str());
        proof {
            assert(out@ =~= base + spec_param_args(params@.take(i + 1)));
        }
        i = i + 1;
    }
    proof {
        assert(params@.take(i as int) =~= params@);
    }
    out.append(">");
    proof {
        assert(out@ =~= base + spec_ty_suffix(params@));
    }
}

// ---------------------------------------------------------------------------
// The whole implementation.
// ---------------------------------------------------------------------------

/// The generated implementation of the measurement capability for a shape:
/// a dispatch on the receiver's active variant that binds each included
/// field and sums the included contributions, with fixed-size array fields
/// expanded element by element, and one capability bound per type parameter
/// of the source type.
pub open spec fn spec_emit(shape: &TypeShape) -> Seq<char> {
    "impl<Alloc: heapsize::UsableSize"@ + spec_param_bounds(shape.params@)
        + "> heapsize::HeapSizeOf<Alloc> for "@ + shape.name@ + spec_ty_suffix(shape.params@)
        + " {\n    fn heap_size_of_children(&self, heap_size_of: &Alloc) -> usize {\n        let mut sum = 0;\n        match *self {\n"@
        + (match shape.kind {
        ShapeKind::Record(fields) => spec_arm(shape.name@, fields),
        ShapeKind::TaggedUnion(variants) => spec_union_arms(shape.name@, variants@),
    }) + "        }\n        sum\n    }\n}\n"@
}

/// Emit the implementation text for a shape.
///
/// Emission assumes the shape's annotations were already validated: a field
/// whose annotations are erroneous is simply not included here, so the
/// analyzer must be consulted first; [`crate::generate::heapsizeof_derive`]
/// combines the two and never hands out text for an invalid shape.
pub fn emit_impl(shape: &TypeShape) -> (code: String)
    ensures
        code@ == spec_emit(shape),
{
    let mut out = String::new();
    out.append("impl<Alloc: heapsize::UsableSize");
    push_param_bounds(&mut out, &shape.params);
    out.append("> heapsize::HeapSizeOf<Alloc> for ");
    out.append(shape.name.as_str());
    push_ty_suffix(&mut out, &shape.params);
    out.append(
        " {\n    fn heap_size_of_children(&self, heap_size_of: &Alloc) -> usize {\n        let mut sum = 0;\n        match *self {\n",
    );
    match &shape.kind {
        ShapeKind::Record(fields) => {
            push_arm(&mut out, &shape.name, fields);
        },
        ShapeKind::TaggedUnion(variants) => {
            push_union_arms(&mut out, &shape.name, variants);
        },
    }
    out.append("        }\n        sum\n    }\n}\n");
    proof {
        assert(out@ =~= spec_emit(shape));
    }
    out
}

} // verus!
