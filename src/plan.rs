//! The defaulting resolver: a record's fields with their parsed annotations,
//! the tolerance type, the default values, and the text of each comparison.
use vstd::prelude::*;

use crate::attrs::{
    approx_entries, clone_text, field_config_of, parse_field_config, parse_struct_config, struct_config_of,
    Attribute, AttrError, FieldConfig, StructConfig, TypeCast,
};

verus! {

/// The generics of a record, split for an impl, each as source text (empty
/// where the record has none).
pub struct Generics {
    pub impl_generics: String,
    pub ty_generics: String,
    pub where_clause: String,
}

/// A named field: its name, its declared type as source text, its attributes.
pub struct FieldDefinition {
    pub name: String,
    pub ty: String,
    pub attrs: Vec<Attribute>,
}

/// A record with named fields, in declaration order.
pub struct TypeDefinition {
    pub name: String,
    pub generics: Generics,
    pub attrs: Vec<Attribute>,
    pub fields: Vec<FieldDefinition>,
}

/// A field with its parsed annotations.
pub struct FieldWithArgs {
    pub name: String,
    pub ty: String,
    pub args: FieldConfig,
}

/// A record whose annotations have all been read.
pub struct AbsDiffEqParser {
    pub item_struct: TypeDefinition,
    pub fields_with_args: Vec<FieldWithArgs>,
    pub struct_args: StructConfig,
}

/// What a parsed record holds, as the contracts see it.
pub struct ParsedType {
    pub name: String,
    pub generics: Generics,
    pub struct_args: StructConfig,
    pub fields: Seq<FieldWithArgs>,
}

impl View for AbsDiffEqParser {
    type V = ParsedType;

    open spec fn view(&self) -> ParsedType {
        ParsedType {
            name: self.item_struct.name,
            generics: self.item_struct.generics,
            struct_args: self.struct_args,
            fields: self.fields_with_args@,
        }
    }
}

/// The fields read in order; the first field with a refused annotation decides
/// the error.
pub open spec fn fields_of(fs: Seq<FieldDefinition>) -> Result<Seq<FieldWithArgs>, AttrError>
    decreases fs.len(),
{
    if fs.len() == 0 {
        Ok(Seq::empty())
    } else {
        match fields_of(fs.drop_last()) {
            Err(e) => Err(e),
            Ok(prev) => match field_config_of(fs.last().name, approx_entries(fs.last().attrs@)) {
                Err(e) => Err(e),
                Ok(c) => Ok(prev.push(FieldWithArgs { name: fs.last().name, ty: fs.last().ty, args: c })),
            },
        }
    }
}

/// A record read whole: first its own annotations, then its fields in order.
pub open spec fn parsed_of(def: TypeDefinition) -> Result<ParsedType, AttrError> {
    match struct_config_of(approx_entries(def.attrs@)) {
        Err(e) => Err(e),
        Ok(sc) => match fields_of(def.fields@) {
            Err(e) => Err(e),
            Ok(fs) => Ok(ParsedType { name: def.name, generics: def.generics, struct_args: sc, fields: fs }),
        },
    }
}

/// The fields that take part in the comparison: those not skipped, in
/// declaration order.
pub open spec fn compared_of(fs: Seq<FieldWithArgs>) -> Seq<FieldWithArgs>
    decreases fs.len(),
{
    if fs.len() == 0 {
        Seq::empty()
    } else {
        let prev = compared_of(fs.drop_last());
        if fs.last().args.skip {
            prev
        } else {
            prev.push(fs.last())
        }
    }
}

/// The tolerance type: the one named on the record, else the declared type of
/// the first field that is not skipped, else `f64`.
pub open spec fn epsilon_type_of(p: ParsedType) -> Seq<char> {
    match p.struct_args.epsilon_type {
        Some(t) => t@,
        None => if compared_of(p.fields).len() > 0 {
            compared_of(p.fields)[0].ty@
        } else {
            "f64"@
        },
    }
}

/// The default epsilon: the value named on the record, else the tolerance
/// type's own default.
pub open spec fn default_epsilon_of(p: ParsedType) -> Seq<char> {
    match p.struct_args.default_epsilon_value {
        Some(v) => v@,
        None => "<"@ + epsilon_type_of(p) + " as approx::AbsDiffEq>::default_epsilon()"@,
    }
}

/// The default max_relative: the value named on the record, else the tolerance
/// type's own default.
pub open spec fn default_max_relative_of(p: ParsedType) -> Seq<char> {
    match p.struct_args.default_max_relative_value {
        Some(v) => v@,
        None => "<"@ + epsilon_type_of(p) + " as approx::RelativeEq>::default_max_relative()"@,
    }
}

/// The pieces of one field's comparison, as source text.
pub struct FieldFormatted {
    pub base_type: String,
    pub own_field: String,
    pub other_field: String,
    pub epsilon: String,
    pub max_relative: String,
}

/// The pieces of one field's comparison, as the contracts see them.
pub struct FieldText {
    pub base_type: Seq<char>,
    pub own_field: Seq<char>,
    pub other_field: Seq<char>,
    pub epsilon: Seq<char>,
    pub max_relative: Seq<char>,
}

impl View for FieldFormatted {
    type V = FieldText;

    open spec fn view(&self) -> FieldText {
        FieldText {
            base_type: self.base_type@,
            own_field: self.own_field@,
            other_field: self.other_field@,
            epsilon: self.epsilon@,
            max_relative: self.max_relative@,
        }
    }
}

/// A field's epsilon: its static value, else the caller's `epsilon`.
pub open spec fn field_epsilon_of(f: FieldWithArgs) -> Seq<char> {
    match f.args.epsilon_static_value {
        Some(e) => e@,
        None => "epsilon"@,
    }
}

/// A field's max_relative: its static value, else the caller's `max_relative`.
pub open spec fn field_max_relative_of(f: FieldWithArgs) -> Seq<char> {
    match f.args.max_relative_static_value {
        Some(m) => m@,
        None => "max_relative"@,
    }
}

/// How one compared field is written, given the tolerance type `t`.
pub open spec fn field_text_of(t: Seq<char>, f: FieldWithArgs) -> FieldText {
    match f.args.cast_strategy {
        Some(TypeCast::CastField) => FieldText {
            base_type: t,
            own_field: "&(self."@ + f.name@ + " as "@ + t + ")"@,
            other_field: "&(other."@ + f.name@ + " as "@ + t + ")"@,
            epsilon: field_epsilon_of(f),
            max_relative: field_max_relative_of(f),
        },
        Some(TypeCast::CastValue) => FieldText {
            base_type: f.ty@,
            own_field: "&self."@ + f.name@,
            other_field: "&other."@ + f.name@,
            epsilon: "("@ + field_epsilon_of(f) + ") as "@ + f.ty@,
            max_relative: "("@ + field_max_relative_of(f) + ") as "@ + f.ty@,
        },
        None => FieldText {
            base_type: t,
            own_field: "&self."@ + f.name@,
            other_field: "&other."@ + f.name@,
            epsilon: field_epsilon_of(f),
            max_relative: field_max_relative_of(f),
        },
    }
}

fn clone_opt_text(o: &Option<String>) -> (r: Option<String>)
    ensures
        r == *o,
{
    match o {
        Some(s) => Some(s.clone()),
        None => None,
    }
}

proof fn lemma_fields_error_kept(fs: Seq<FieldDefinition>, n: int, m: int)
    requires
        0 <= n <= m <= fs.len(),
        fields_of(fs.take(n)) is Err,
    ensures
        fields_of(fs.take(m)) == fields_of(fs.take(n)),
    decreases m - n,
{
    if m > n {
        lemma_fields_error_kept(fs, n, m - 1);
        assert(fs.take(m).drop_last() =~= fs.take(m - 1));
    }
}

proof fn lemma_compared_prefix(fs: Seq<FieldWithArgs>, n: int, m: int)
    requires
        0 <= n <= m <= fs.len(),
    ensures
        compared_of(fs.take(n)).len() <= compared_of(fs.take(m)).len(),
        forall|k: int|
            0 <= k < compared_of(fs.take(n)).len() ==> compared_of(fs.take(m))[k] == compared_of(
                fs.take(n),
            )[k],
    decreases m - n,
{
    if m > n {
        lemma_compared_prefix(fs, n, m - 1);
        assert(fs.take(m).drop_last() =~= fs.take(m - 1));
    }
}

impl AbsDiffEqParser {
    /// Reads the record's annotations, then each field's, in declaration order.
    pub fn parse(item_struct: TypeDefinition) -> (r: Result<AbsDiffEqParser, AttrError>)
        ensures
            match r {
                Ok(p) => parsed_of(item_struct) == Ok::<ParsedType, AttrError>(p@) && p.item_struct == item_struct,
                Err(e) => parsed_of(item_struct) == Err::<ParsedType, AttrError>(e),
            },
    {
        let struct_args = match parse_struct_config(&item_struct.attrs) {
            Ok(c) => c,
            Err(e) => return Err(e),
        };
        let mut fields_with_args: Vec<FieldWithArgs> = Vec::new();
        let n = item_struct.fields.len();
        let mut i: usize = 0;
        while i < n
            invariant
                n == item_struct.fields@.len(),
                i <= n,
                struct_config_of(approx_entries(item_struct.attrs@)) == Ok::<StructConfig, AttrError>(
                    struct_args,
                ),
                fields_of(item_struct.fields@.take(i as int)) == Ok::<Seq<FieldWithArgs>, AttrError>(
                    fields_with_args@,
                ),
            decreases n - i,
        {
            let field = &item_struct.fields[i];
            proof {
                assert(item_struct.fields@.take(i as int + 1).drop_last() =~= item_struct.fields@.take(
                    i as int,
                ));
            }
            match parse_field_config(&field.name, &field.attrs) {
                Ok(args) => {
                    fields_with_args.push(
                        FieldWithArgs { name: clone_text(&field.name), ty: clone_text(&field.ty), args },
                    );
                },
                Err(e) => {
                    proof {
                        assert(item_struct.fields@.take(i as int + 1).last() == item_struct.fields@[i as int]);
                        assert(fields_of(item_struct.fields@.take(i as int + 1)) == Err::<Seq<FieldWithArgs>, AttrError>(e));
                        lemma_fields_error_kept(item_struct.fields@, i + 1, n as int);
                        assert(item_struct.fields@.take(n as int) =~= item_struct.fields@);
                    }
                    return Err(e);
                },
            }
            i = i + 1;
        }
        proof {
            assert(item_struct.fields@.take(n as int) =~= item_struct.fields@);
        }
        Ok(AbsDiffEqParser { item_struct, fields_with_args, struct_args })
    }

    /// The tolerance type, as source text.
    pub fn get_epsilon_type(&self) -> (r: String)
        ensures
            r@ == epsilon_type_of(self@),
    {
        match &self.struct_args.epsilon_type {
            Some(t) => clone_text(t),
            None => {
                let ghost fs = self.fields_with_args@;
                let n = self.fields_with_args.len();
                let mut i: usize = 0;
                while i < n
                    invariant
                        fs == self.fields_with_args@,
                        self.struct_args.epsilon_type is None,
                        n == fs.len(),
                        i <= n,
                        compared_of(fs.take(i as int)).len() == 0,
                    decreases n - i,
                {
                    proof {
                        assert(fs.take(i as int + 1).drop_last() =~= fs.take(i as int));
                        assert(fs.take(i as int + 1).last() == fs[i as int]);
                    }
                    if !self.fields_with_args[i].args.skip {
                        proof {
                            assert(compared_of(fs.take(i as int + 1)).len() == 1);
                            assert(compared_of(fs.take(i as int + 1))[0] == fs[i as int]);
                            lemma_compared_prefix(fs, i as int + 1, n as int);
                            assert(fs.take(n as int) =~= fs);
                            assert(compared_of(fs)[0] == fs[i as int]);
                        }
                        return clone_text(&self.fields_with_args[i].ty);
                    }
                    i = i + 1;
                }
                proof {
                    assert(fs.take(n as int) =~= fs);
                }
                "f64".to_owned()
            },
        }
    }

    /// The tolerance type and the default epsilon, as source text.
    pub fn get_epsilon_type_and_default_value(&self) -> (r: (String, String))
        ensures
            r.0@ == epsilon_type_of(self@),
            r.1@ == default_epsilon_of(self@),
    {
        let epsilon_type = self.get_epsilon_type();
        let default_value = match clone_opt_text(&self.struct_args.default_epsilon_value) {
            Some(v) => v,
            None => {
                let mut s: String = "<".to_owned();
                s.append(epsilon_type.as_str());
                s.append(" as approx::AbsDiffEq>::default_epsilon()");
                s
            },
        };
        (epsilon_type, default_value)
    }

    /// The default max_relative, as source text.
    pub fn get_max_relative_default_value(&self) -> (r: String)
        ensures
            r@ == default_max_relative_of(self@),
    {
        let epsilon_type = self.get_epsilon_type();
        match clone_opt_text(&self.struct_args.default_max_relative_value) {
            Some(v) => v,
            None => {
                let mut s: String = "<".to_owned();
                s.append(epsilon_type.as_str());
                s.append(" as approx::RelativeEq>::default_max_relative()");
                s
            },
        }
    }

    /// The pieces of a field's comparison; `None` for a skipped field.
    pub fn format_field(&self, field_with_args: &FieldWithArgs) -> (r: Option<FieldFormatted>)
        ensures
            field_with_args.args.skip ==> r is None,
            !field_with_args.args.skip ==> (r matches Some(f) && f@ == field_text_of(
                epsilon_type_of(self@),
                *field_with_args,
            )),
    {
        if field_with_args.args.skip {
            return None;
        }
        let epsilon_type = self.get_epsilon_type();
        let field_name = field_with_args.name.as_str();
        let field_type = field_with_args.ty.as_str();
        let epsilon = match &field_with_args.args.epsilon_static_value {
            Some(e) => clone_text(e),
            None => "epsilon".to_owned(),
        };
        let max_relative = match &field_with_args.args.max_relative_static_value {
            Some(m) => clone_text(m),
            None => "max_relative".to_owned(),
        };
        match field_with_args.args.cast_strategy {
            Some(TypeCast::CastField) => {
                let mut own_field: String = "&(self.".to_owned();
                own_field.append(field_name);
                own_field.append(" as ");
                own_field.append(epsilon_type.as_str());
                own_field.append(")");
                let mut other_field: String = "&(other.".to_owned();
                other_field.append(field_name);
                other_field.append(" as ");
                other_field.append(epsilon_type.as_str());
                other_field.append(")");
                Some(FieldFormatted { base_type: epsilon_type, own_field, other_field, epsilon, max_relative })
            },
            Some(TypeCast::CastValue) => {
                let mut own_field: String = "&self.".to_owned();
                own_field.append(field_name);
                let mut other_field: String = "&other.".to_owned();
                other_field.append(field_name);
                let mut cast_epsilon: String = "(".to_owned();
                cast_epsilon.append(epsilon.as_str());
                cast_epsilon.append(") as ");
                cast_epsilon.append(field_type);
                let mut cast_max_relative: String = "(".to_owned();
                cast_max_relative.append(max_relative.as_str());
                cast_max_relative.append(") as ");
                cast_max_relative.append(field_type);
                Some(
                    FieldFormatted {
                        base_type: clone_text(&field_with_args.ty),
                        own_field,
                        other_field,
                        epsilon: cast_epsilon,
                        max_relative: cast_max_relative,
                    },
                )
            },
            None => {
                let mut own_field: String = "&self.".to_owned();
                own_field.append(field_name);
                let mut other_field: String = "&other.".to_owned();
                other_field.append(field_name);
                Some(FieldFormatted { base_type: epsilon_type, own_field, other_field, epsilon, max_relative })
            },
        }
    }
}

} // verus!
