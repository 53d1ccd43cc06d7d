//! What the emitted predicates compute, and the laws that hold of them.
//!
//! The emitted `abs_diff_eq` is a conjunction with one comparison per compared
//! field, in declaration order. Its meaning is modelled here by `cmp(k, t)`,
//! the result of the `k`-th comparison at tolerance `t`, and `value_of(e)`, the
//! value of a static tolerance expression `e`.
use vstd::prelude::*;

use crate::attrs::{AttrError, FieldConfig};
use crate::codegen::{
    abs_calls_of, abs_impl_of, derived_abs_of, derived_rel_of, field_texts_of,
    rel_calls_of, rel_impl_of,
};
use crate::plan::{compared_of, parsed_of, FieldWithArgs, ParsedType, TypeDefinition};

verus! {

/// The epsilon that a compared field is checked at: its static value, else the
/// caller's.
pub open spec fn epsilon_value_of<T>(
    f: FieldWithArgs,
    value_of: spec_fn(Seq<char>) -> T,
    epsilon: T,
) -> T {
    match f.args.epsilon_static_value {
        Some(e) => value_of(e@),
        None => epsilon,
    }
}

/// The max_relative that a compared field is checked at: its static value,
/// else the caller's.
pub open spec fn max_relative_value_of<T>(
    f: FieldWithArgs,
    value_of: spec_fn(Seq<char>) -> T,
    max_relative: T,
) -> T {
    match f.args.max_relative_static_value {
        Some(m) => value_of(m@),
        None => max_relative,
    }
}

/// What the emitted `abs_diff_eq` returns when called with `epsilon`.
pub open spec fn abs_diff_eq_holds<T>(
    p: ParsedType,
    cmp: spec_fn(int, T) -> bool,
    value_of: spec_fn(Seq<char>) -> T,
    epsilon: T,
) -> bool {
    forall|k: int|
        0 <= k < compared_of(p.fields).len() ==> #[trigger] cmp(
            k,
            epsilon_value_of(compared_of(p.fields)[k], value_of, epsilon),
        )
}

/// What the emitted `relative_eq` returns when called with `epsilon` and
/// `max_relative`.
pub open spec fn relative_eq_holds<T>(
    p: ParsedType,
    cmp: spec_fn(int, T, T) -> bool,
    value_of: spec_fn(Seq<char>) -> T,
    epsilon: T,
    max_relative: T,
) -> bool {
    forall|k: int|
        0 <= k < compared_of(p.fields).len() ==> #[trigger] cmp(
            k,
            epsilon_value_of(compared_of(p.fields)[k], value_of, epsilon),
            max_relative_value_of(compared_of(p.fields)[k], value_of, max_relative),
        )
}

proof fn lemma_compared_are_fields(fs: Seq<FieldWithArgs>)
    ensures
        compared_of(fs).len() <= fs.len(),
        forall|k: int|
            0 <= k < compared_of(fs).len() ==> fs.contains(#[trigger] compared_of(fs)[k]),
    decreases fs.len(),
{
    if fs.len() > 0 {
        let prev = fs.drop_last();
        lemma_compared_are_fields(prev);
        assert forall|k: int| 0 <= k < compared_of(fs).len() implies fs.contains(
            #[trigger] compared_of(fs)[k],
        ) by {
            if k < compared_of(prev).len() {
                let x = compared_of(prev)[k];
                let j = choose|j: int| 0 <= j < prev.len() && prev[j] == x;
                assert(fs[j] == x);
            } else {
                assert(fs[fs.len() - 1] == fs.last());
            }
        }
    }
}

proof fn lemma_all_skipped_none_compared(fs: Seq<FieldWithArgs>)
    requires
        forall|i: int| 0 <= i < fs.len() ==> (#[trigger] fs[i]).args.skip,
    ensures
        compared_of(fs).len() == 0,
    decreases fs.len(),
{
    if fs.len() > 0 {
        lemma_all_skipped_none_compared(fs.drop_last());
    }
}

/// The configuration of a field with no annotation that changes how it is
/// compared: not skipped, not cast, no static epsilon.
pub open spec fn is_plain(c: FieldConfig) -> bool {
    !c.skip && c.cast_strategy is None && c.epsilon_static_value is None
}

/// Reflexivity at zero tolerance: for a record whose fields are all compared
/// as declared, if each field's comparison of a value with itself holds at the
/// zero tolerance, the emitted `abs_diff_eq(x, x, zero)` holds.
pub proof fn lemma_reflexive_at_zero<T>(
    def: TypeDefinition,
    cmp: spec_fn(int, T) -> bool,
    value_of: spec_fn(Seq<char>) -> T,
    zero: T,
)
    requires
        parsed_of(def) matches Ok(p) && forall|i: int|
            0 <= i < p.fields.len() ==> is_plain((#[trigger] p.fields[i]).args),
        forall|k: int| #[trigger] cmp(k, zero),
    ensures
        parsed_of(def) matches Ok(p) && abs_diff_eq_holds(p, cmp, value_of, zero),
{
    let p = parsed_of(def)->Ok_0;
    lemma_compared_are_fields(p.fields);
    assert forall|k: int| 0 <= k < compared_of(p.fields).len() implies #[trigger] cmp(
        k,
        epsilon_value_of(compared_of(p.fields)[k], value_of, zero),
    ) by {
        let x = compared_of(p.fields)[k];
        assert(p.fields.contains(x));
        let j = choose|j: int| 0 <= j < p.fields.len() && p.fields[j] == x;
        assert(is_plain(p.fields[j].args));
    }
}

/// A record whose fields are all skipped (or that has none) is always equal:
/// both emitted predicates hold of any two values at any tolerances, and their
/// bodies hold no comparison.
pub proof fn lemma_all_skipped_always_equal<T>(
    def: TypeDefinition,
    abs_cmp: spec_fn(int, T) -> bool,
    rel_cmp: spec_fn(int, T, T) -> bool,
    value_of: spec_fn(Seq<char>) -> T,
    epsilon: T,
    max_relative: T,
)
    requires
        parsed_of(def) matches Ok(p) && forall|i: int|
            0 <= i < p.fields.len() ==> (#[trigger] p.fields[i]).args.skip,
    ensures
        parsed_of(def) matches Ok(p) && abs_calls_of(p).len() == 0 && rel_calls_of(p).len() == 0
            && abs_diff_eq_holds(p, abs_cmp, value_of, epsilon) && relative_eq_holds(
            p,
            rel_cmp,
            value_of,
            epsilon,
            max_relative,
        ),
{
    let p = parsed_of(def)->Ok_0;
    lemma_all_skipped_none_compared(p.fields);
    assert(field_texts_of(p).len() == 0);
}

/// A static epsilon makes a field's comparison independent of the caller's
/// epsilon: where every compared field has one, or its comparison does not
/// depend on the tolerance, the emitted `abs_diff_eq` gives the same result for
/// any two caller epsilons.
pub proof fn lemma_static_epsilon_ignores_caller<T>(
    def: TypeDefinition,
    cmp: spec_fn(int, T) -> bool,
    value_of: spec_fn(Seq<char>) -> T,
    epsilon1: T,
    epsilon2: T,
)
    requires
        parsed_of(def) matches Ok(p) && forall|k: int|
            0 <= k < compared_of(p.fields).len() ==> (#[trigger] compared_of(
                p.fields,
            )[k]).args.epsilon_static_value is Some || forall|t1: T, t2: T|
                #[trigger] cmp(k, t1) == #[trigger] cmp(k, t2),
    ensures
        parsed_of(def) matches Ok(p) && abs_diff_eq_holds(p, cmp, value_of, epsilon1)
            == abs_diff_eq_holds(p, cmp, value_of, epsilon2),
{
    let p = parsed_of(def)->Ok_0;
    let c = compared_of(p.fields);
    assert forall|k: int| 0 <= k < c.len() implies #[trigger] cmp(
        k,
        epsilon_value_of(c[k], value_of, epsilon1),
    ) == cmp(k, epsilon_value_of(c[k], value_of, epsilon2)) by {
        if c[k].args.epsilon_static_value is None {
            assert(cmp(k, epsilon1) == cmp(k, epsilon2));
        }
    }
    if abs_diff_eq_holds(p, cmp, value_of, epsilon1) {
        assert forall|k: int| 0 <= k < c.len() implies #[trigger] cmp(
            k,
            epsilon_value_of(c[k], value_of, epsilon2),
        ) by {
            assert(cmp(k, epsilon_value_of(c[k], value_of, epsilon1)));
        }
    }
    if abs_diff_eq_holds(p, cmp, value_of, epsilon2) {
        assert forall|k: int| 0 <= k < c.len() implies #[trigger] cmp(
            k,
            epsilon_value_of(c[k], value_of, epsilon1),
        ) by {
            assert(cmp(k, epsilon_value_of(c[k], value_of, epsilon2)));
        }
    }
}

/// Deriving `RelativeEq` derives the same `AbsDiffEq` impl as deriving
/// `AbsDiffEq` alone, followed by the `RelativeEq` impl; both fail on the same
/// annotation.
pub proof fn lemma_relative_extends_absolute(def: TypeDefinition)
    ensures
        match derived_abs_of(def) {
            Ok(a) => derived_rel_of(def) matches Ok(r) && r.len() >= a.len() && r.subrange(
                0,
                a.len() as int,
            ) == a,
            Err(e) => derived_rel_of(def) == Err::<Seq<char>, AttrError>(e),
        },
{
    if let Ok(p) = parsed_of(def) {
        let a = abs_impl_of(p);
        let r = a + rel_impl_of(p);
        assert(r.subrange(0, a.len() as int) =~= a);
    }
}

} // verus!
