//! Known-shallow registration: emit capability implementations that return a
//! fixed constant for already-defined types.
//!
//! This is the batch registration used to close out primitive numeric types,
//! booleans, atomics and similar externally defined leaf types: each
//! registered type contributes the given constant (commonly 0), never a
//! computed value.  Registration is declarative and order independent: the
//! text emitted for a list of types is the concatenation of one independent
//! implementation per type, so no runtime entity depends on the order.

use vstd::prelude::*;

use crate::emit::{spec_decimal, spec_param_bounds, spec_ty_suffix};
use vstd::string::StringExecFns;

verus! {

/// The registered implementation for one type: it returns the constant,
/// whatever the value holds.
pub open spec fn spec_known_impl(size: usize, name: Seq<char>, params: Seq<String>) -> Seq<char> {
    "impl<Alloc: heapsize::UsableSize"@ + spec_param_bounds(params)
        + "> heapsize::HeapSizeOf<Alloc> for "@ + name + spec_ty_suffix(params)
        + " {\n    fn heap_size_of_children(&self, heap_size_of: &Alloc) -> usize {\n        "@
        + spec_decimal(size as nat) + "\n    }\n}\n"@
}

/// The registered implementations of a batch of plain type names, in order.
pub open spec fn spec_known_impls(size: usize, names: Seq<String>) -> Seq<char>
    decreases names.len(),
{
    if names.len() == 0 {
        Seq::empty()
    } else {
        spec_known_impls(size, names.drop_last()) + spec_known_impl(
            size,
            names.last()@,
            Seq::<String>::empty(),
        )
    }
}

/// Emit the capability implementation for one type, registered as
/// contributing the constant `size`.  A type generic over parameters gets
/// one capability bound per parameter, as "any instance of this type
/// contributes the constant, whatever its arguments".
pub fn known_heap_size_generic(size: usize, name: &String, params: &Vec<String>) -> (code: String)
    ensures
        code@ == spec_known_impl(size, name@, params@),
{
    let mut out = String::new();
    out.append("impl<Alloc: heapsize::UsableSize");
    crate::emit::push_param_bounds(&mut out, params);
    out.append("> heapsize::HeapSizeOf<Alloc> for ");
    out.append(name.as_str());
    crate::emit::push_ty_suffix(&mut out, params);
    out.append(" {\n    fn heap_size_of_children(&self, heap_size_of: &Alloc) -> usize {\n        ");
    crate::emit::push_decimal(&mut out, size);
    out.append("\n    }\n}\n");
    proof {
        assert(out@ =~= spec_known_impl(size, name@, params@));
    }
    out
}

/// Emit the capability implementations for a batch of plain type names, each
/// registered as contributing the constant `size`.
pub fn known_heap_size(size: usize, names: &Vec<String>) -> (code: String)
    ensures
        code@ == spec_known_impls(size, names@),
{
    let mut out = String::new();
    let mut i: usize = 0;
    proof {
        assert(names@.take(0) =~= Seq::<String>::empty());
        assert(out@ + spec_known_impls(size, names@.take(0)) =~= out@);
    }
    let ghost base = out@;
    while i < names.len()
        invariant
            i <= names.len(),
            out@ == base + spec_known_impls(size, names@.take(i as int)),
        decreases names.len() - i,
    {
        proof {
            assert(names@.take(i + 1).drop_last() =~= names@.take(i as int));
            assert(names@.take(i + 1).last() == names@[i as int]);
        }
        let empty_params: Vec<String> = Vec::new();
        let one = known_heap_size_generic(size, &names[i], &empty_params);
        out.append(one.as_str());
        proof {
            assert(out@ =~= base + spec_known_impls(size, names@.take(i + 1)));
        }
        i = i + 1;
    }
    proof {
        assert(names@.take(i as int) =~= names@);
        assert(base =~= Seq::<char>::empty());
        assert(out@ =~= spec_known_impls(size, names@));
    }
    out
}

} // verus!
