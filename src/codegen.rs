//! The comparison synthesizer: the text of the `approx::AbsDiffEq` and
//! `approx::RelativeEq` impls of a parsed record.
use vstd::prelude::*;

use crate::attrs::AttrError;
use crate::plan::{
    compared_of, default_epsilon_of, default_max_relative_of, epsilon_type_of, field_text_of, parsed_of,
    AbsDiffEqParser, FieldText, FieldWithArgs, ParsedType, TypeDefinition,
};

verus! {

/// The pieces of each compared field's comparison.
pub open spec fn field_texts_of(p: ParsedType) -> Seq<FieldText> {
    compared_of(p.fields).map_values(|f: FieldWithArgs| field_text_of(epsilon_type_of(p), f))
}

/// One conjunct of the absolute-difference predicate.
pub open spec fn abs_call_of(f: FieldText) -> Seq<char> {
    "<"@ + f.base_type + " as approx::AbsDiffEq>::abs_diff_eq("@ + f.own_field + ", "@
        + f.other_field + ", "@ + f.epsilon + ") && "@
}

/// One conjunct of the relative-difference predicate.
pub open spec fn rel_call_of(f: FieldText) -> Seq<char> {
    "<"@ + f.base_type + " as approx::RelativeEq>::relative_eq("@ + f.own_field + ", "@
        + f.other_field + ", "@ + f.epsilon + ", "@ + f.max_relative + ") && "@
}

pub open spec fn abs_calls_of(p: ParsedType) -> Seq<Seq<char>> {
    field_texts_of(p).map_values(|f: FieldText| abs_call_of(f))
}

pub open spec fn rel_calls_of(p: ParsedType) -> Seq<Seq<char>> {
    field_texts_of(p).map_values(|f: FieldText| rel_call_of(f))
}

/// The parts written one after another.
pub open spec fn concat_of(parts: Seq<Seq<char>>) -> Seq<char>
    decreases parts.len(),
{
    if parts.len() == 0 {
        Seq::empty()
    } else {
        concat_of(parts.drop_last()) + parts.last()
    }
}

/// The text of the `approx::AbsDiffEq` impl.
pub open spec fn abs_impl_of(p: ParsedType) -> Seq<char> {
    "const _ : () = { impl"@ + p.generics.impl_generics@ + " approx::AbsDiffEq for "@ + p.name@
        + p.generics.ty_generics@ + " "@ + p.generics.where_clause@ + " { type Epsilon = "@
        + epsilon_type_of(p) + "; fn default_epsilon() -> Self::Epsilon { "@ + default_epsilon_of(p)
        + " } fn abs_diff_eq(&self, other: &Self, epsilon: Self::Epsilon) -> bool { "@ + concat_of(
        abs_calls_of(p),
    ) + "true } } };"@
}

/// The text of the `approx::RelativeEq` impl.
pub open spec fn rel_impl_of(p: ParsedType) -> Seq<char> {
    "const _ : () = { impl"@ + p.generics.impl_generics@ + " approx::RelativeEq for "@ + p.name@
        + p.generics.ty_generics@ + " "@ + p.generics.where_clause@
        + " { fn default_max_relative() -> Self::Epsilon { "@ + default_max_relative_of(p)
        + " } fn relative_eq(&self, other: &Self, epsilon: Self::Epsilon, max_relative: Self::Epsilon) -> bool { "@
        + concat_of(rel_calls_of(p)) + "true } } };"@
}

/// What deriving `AbsDiffEq` yields for a record.
pub open spec fn derived_abs_of(def: TypeDefinition) -> Result<Seq<char>, AttrError> {
    match parsed_of(def) {
        Ok(p) => Ok(abs_impl_of(p)),
        Err(e) => Err(e),
    }
}

/// What deriving `RelativeEq` yields for a record: both impls.
pub open spec fn derived_rel_of(def: TypeDefinition) -> Result<Seq<char>, AttrError> {
    match parsed_of(def) {
        Ok(p) => Ok(abs_impl_of(p) + rel_impl_of(p)),
        Err(e) => Err(e),
    }
}

pub open spec fn views_of(v: Seq<String>) -> Seq<Seq<char>> {
    v.map_values(|s: String| s@)
}

fn append_all(s: &mut String, parts: &Vec<String>)
    ensures
        final(s)@ == old(s)@ + concat_of(views_of(parts@)),
{
    let mut i: usize = 0;
    while i < parts.len()
        invariant
            i <= parts@.len(),
            s@ == old(s)@ + concat_of(views_of(parts@).take(i as int)),
        decreases parts@.len() - i,
    {
        proof {
            let v = views_of(parts@);
            assert(v.take(i as int + 1).drop_last() =~= v.take(i as int));
            assert(v.take(i as int + 1).last() == parts@[i as int]@);
        }
        s.append(parts[i].as_str());
        proof {
            let v = views_of(parts@);
            assert(s@ =~= old(s)@ + concat_of(v.take(i as int + 1)));
        }
        i = i + 1;
    }
    proof {
        assert(views_of(parts@).take(i as int) =~= views_of(parts@));
    }
}

impl AbsDiffEqParser {
    /// One `AbsDiffEq` conjunct per compared field, in declaration order.
    pub fn get_abs_diff_eq_fields(&self) -> (r: Vec<String>)
        ensures
            views_of(r@) == abs_calls_of(self@),
    {
        let ghost t = epsilon_type_of(self@);
        let ghost fs = self.fields_with_args@;
        let mut out: Vec<String> = Vec::new();
        let mut i: usize = 0;
        while i < self.fields_with_args.len()
            invariant
                t == epsilon_type_of(self@),
                fs == self.fields_with_args@,
                i <= fs.len(),
                out@.len() == compared_of(fs.take(i as int)).len(),
                forall|k: int|
                    0 <= k < out@.len() ==> #[trigger] out@[k]@ == abs_call_of(
                        field_text_of(t, compared_of(fs.take(i as int))[k]),
                    ),
            decreases fs.len() - i,
        {
            proof {
                assert(fs.take(i as int + 1).drop_last() =~= fs.take(i as int));
                assert(fs.take(i as int + 1).last() == fs[i as int]);
            }
            match self.format_field(&self.fields_with_args[i]) {
                Some(f) => {
                    let mut call: String = "<".to_owned();
                    call.append(f.base_type.as_str());
                    call.append(" as approx::AbsDiffEq>::abs_diff_eq(");
                    call.append(f.own_field.as_str());
                    call.append(", ");
                    call.append(f.other_field.as_str());
                    call.append(", ");
                    call.append(f.epsilon.as_str());
                    call.append(") && ");
                    out.push(call);
                },
                None => {},
            }
            i = i + 1;
        }
        proof {
            assert(fs.take(i as int) =~= fs);
            assert(views_of(out@) =~= abs_calls_of(self@));
        }
        out
    }

    /// One `RelativeEq` conjunct per compared field, in declaration order.
    pub fn get_rel_eq_fields(&self) -> (r: Vec<String>)
        ensures
            views_of(r@) == rel_calls_of(self@),
    {
        let ghost t = epsilon_type_of(self@);
        let ghost fs = self.fields_with_args@;
        let mut out: Vec<String> = Vec::new();
        let mut i: usize = 0;
        while i < self.fields_with_args.len()
            invariant
                t == epsilon_type_of(self@),
                fs == self.fields_with_args@,
                i <= fs.len(),
                out@.len() == compared_of(fs.take(i as int)).len(),
                forall|k: int|
                    0 <= k < out@.len() ==> #[trigger] out@[k]@ == rel_call_of(
                        field_text_of(t, compared_of(fs.take(i as int))[k]),
                    ),
            decreases fs.len() - i,
        {
            proof {
                assert(fs.take(i as int + 1).drop_last() =~= fs.take(i as int));
                assert(fs.take(i as int + 1).last() == fs[i as int]);
            }
            match self.format_field(&self.fields_with_args[i]) {
                Some(f) => {
                    let mut call: String = "<".to_owned();
                    call.append(f.base_type.as_str());
                    call.append(" as approx::RelativeEq>::relative_eq(");
                    call.append(f.own_field.as_str());
                    call.append(", ");
                    call.append(f.other_field.as_str());
                    call.append(", ");
                    call.append(f.epsilon.as_str());
                    call.append(", ");
                    call.append(f.max_relative.as_str());
                    call.append(") && ");
                    out.push(call);
                },
                None => {},
            }
            i = i + 1;
        }
        proof {
            assert(fs.take(i as int) =~= fs);
            assert(views_of(out@) =~= rel_calls_of(self@));
        }
        out
    }

    /// The text of the `approx::AbsDiffEq` impl.
    pub fn implement_derive_abs_diff_eq(&self) -> (r: String)
        ensures
            r@ == abs_impl_of(self@),
    {
        let (epsilon_type, epsilon_default_value) = self.get_epsilon_type_and_default_value();
        let fields = self.get_abs_diff_eq_fields();
        let generics = &self.item_struct.generics;
        let mut s: String = "const _ : () = { impl".to_owned();
        s.append(generics.impl_generics.as_str());
        s.append(" approx::AbsDiffEq for ");
        s.append(self.item_struct.name.as_str());
        s.append(generics.ty_generics.as_str());
        s.append(" ");
        s.append(generics.where_clause.as_str());
        s.append(" { type Epsilon = ");
        s.append(epsilon_type.as_str());
        s.append("; fn default_epsilon() -> Self::Epsilon { ");
        s.append(epsilon_default_value.as_str());
        s.append(" } fn abs_diff_eq(&self, other: &Self, epsilon: Self::Epsilon) -> bool { ");
        append_all(&mut s, &fields);
        s.append("true } } };");
        s
    }

    /// The text of the `approx::RelativeEq` impl.
    pub fn implement_derive_rel_diff_eq(&self) -> (r: String)
        ensures
            r@ == rel_impl_of(self@),
    {
        let max_relative_default_value = self.get_max_relative_default_value();
        let fields = self.get_rel_eq_fields();
        let generics = &self.item_struct.generics;
        let mut s: String = "const _ : () = { impl".to_owned();
        s.append(generics.impl_generics.as_str());
        s.append(" approx::RelativeEq for ");
        s.append(self.item_struct.name.as_str());
        s.append(generics.ty_generics.as_str());
        s.append(" ");
        s.append(generics.where_clause.as_str());
        s.append(" { fn default_max_relative() -> Self::Epsilon { ");
        s.append(max_relative_default_value.as_str());
        s.append(
            " } fn relative_eq(&self, other: &Self, epsilon: Self::Epsilon, max_relative: Self::Epsilon) -> bool { ",
        );
        append_all(&mut s, &fields);
        s.append("true } } };");
        s
    }
}

/// Derives `approx::AbsDiffEq` for a record: the impl's text, or the first
/// refused annotation.
pub fn derive_abs_diff_eq(input: TypeDefinition) -> (r: Result<String, AttrError>)
    ensures
        match r {
            Ok(s) => derived_abs_of(input) == Ok::<Seq<char>, AttrError>(s@),
            Err(e) => derived_abs_of(input) == Err::<Seq<char>, AttrError>(e),
        },
{
    match AbsDiffEqParser::parse(input) {
        Ok(parsed) => Ok(parsed.implement_derive_abs_diff_eq()),
        Err(e) => Err(e),
    }
}

/// Derives `approx::RelativeEq` for a record, together with the
/// `approx::AbsDiffEq` impl that it extends: both impls' text, or the first
/// refused annotation.
pub fn derive_rel_diff_eq(input: TypeDefinition) -> (r: Result<String, AttrError>)
    ensures
        match r {
            Ok(s) => derived_rel_of(input) == Ok::<Seq<char>, AttrError>(s@),
            Err(e) => derived_rel_of(input) == Err::<Seq<char>, AttrError>(e),
        },
{
    match AbsDiffEqParser::parse(input) {
        Ok(parsed) => {
            let mut output: String = String::new();
            output.append(parsed.implement_derive_abs_diff_eq().as_str());
            output.append(parsed.implement_derive_rel_diff_eq().as_str());
            proof {
                assert(output@ =~= abs_impl_of(parsed@) + rel_impl_of(parsed@));
            }
            Ok(output)
        },
        Err(e) => Err(e),
    }
}

} // verus!
