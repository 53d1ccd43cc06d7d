//! The annotation model: `approx(...)` entries on a record and on its fields.
use vstd::prelude::*;

verus! {

/// One entry of an `approx(...)` annotation: `key` or `key = value`.
pub struct Annotation {
    pub key: String,
    pub value: Option<String>,
}

/// One attribute as written on a record or a field: its path (`approx` for the
/// ones read here) and its entries.
pub struct Attribute {
    pub path: String,
    pub entries: Vec<Annotation>,
}

/// Where an annotation was written.
#[derive(PartialEq, Eq, Structural, Clone, Copy, Debug)]
pub enum Scope {
    Struct,
    Field,
}

/// How a field whose type differs from the tolerance type is compared.
#[derive(PartialEq, Eq, Structural, Clone, Copy, Debug)]
pub enum TypeCast {
    /// The stored values are cast to the tolerance type.
    CastField,
    /// The tolerance values are cast to the field's own type.
    CastValue,
}

/// Record-level overrides.
pub struct StructConfig {
    pub epsilon_type: Option<String>,
    pub default_epsilon_value: Option<String>,
    pub default_max_relative_value: Option<String>,
}

/// Field-level overrides.
pub struct FieldConfig {
    pub skip: bool,
    pub cast_strategy: Option<TypeCast>,
    pub epsilon_static_value: Option<String>,
    pub max_relative_static_value: Option<String>,
}

/// Why an annotation was refused.
pub enum AttrError {
    /// A key that the scope does not know.
    UnrecognizedAttribute { key: String, scope: Scope },
    /// `cast_field` and `cast_value` on one field.
    ConflictingCastStrategy { field: String },
    /// A key that takes a value written without one, or the other way round.
    MalformedAttributeValue { key: String },
}

/// The path under which all annotations read here are written.
pub open spec fn is_approx_path(path: Seq<char>) -> bool {
    path == "approx"@
}

/// The entries of all `approx` attributes, in the order written.
pub open spec fn approx_entries(attrs: Seq<Attribute>) -> Seq<Annotation>
    decreases attrs.len(),
{
    if attrs.len() == 0 {
        Seq::empty()
    } else {
        let prev = approx_entries(attrs.drop_last());
        if is_approx_path(attrs.last().path@) {
            prev + attrs.last().entries@
        } else {
            prev
        }
    }
}

pub open spec fn empty_struct_config() -> StructConfig {
    StructConfig { epsilon_type: None, default_epsilon_value: None, default_max_relative_value: None }
}

pub open spec fn empty_field_config() -> FieldConfig {
    FieldConfig {
        skip: false,
        cast_strategy: None,
        epsilon_static_value: None,
        max_relative_static_value: None,
    }
}

/// The effect of one record-level entry on the configuration read so far.
pub open spec fn struct_step(c: StructConfig, a: Annotation) -> Result<StructConfig, AttrError> {
    if a.key@ == "epsilon_type"@ {
        match a.value {
            Some(v) => Ok(StructConfig { epsilon_type: Some(v), ..c }),
            None => Err(AttrError::MalformedAttributeValue { key: a.key }),
        }
    } else if a.key@ == "default_epsilon"@ {
        match a.value {
            Some(v) => Ok(StructConfig { default_epsilon_value: Some(v), ..c }),
            None => Err(AttrError::MalformedAttributeValue { key: a.key }),
        }
    } else if a.key@ == "default_max_relative"@ {
        match a.value {
            Some(v) => Ok(StructConfig { default_max_relative_value: Some(v), ..c }),
            None => Err(AttrError::MalformedAttributeValue { key: a.key }),
        }
    } else {
        Err(AttrError::UnrecognizedAttribute { key: a.key, scope: Scope::Struct })
    }
}

/// Record-level entries read in order; the first refused entry decides the error.
pub open spec fn struct_config_of(entries: Seq<Annotation>) -> Result<StructConfig, AttrError>
    decreases entries.len(),
{
    if entries.len() == 0 {
        Ok(empty_struct_config())
    } else {
        match struct_config_of(entries.drop_last()) {
            Ok(c) => struct_step(c, entries.last()),
            Err(e) => Err(e),
        }
    }
}

/// The keys that a field's annotations may hold.
pub open spec fn is_field_key(k: Seq<char>) -> bool {
    k == "skip"@ || k == "cast_field"@ || k == "cast_value"@ || k == "static_epsilon"@ || k
        == "static_max_relative"@
}

/// The effect of one field-level entry on the configuration read so far. Once
/// `skip` has been read, the other field keys are accepted and change nothing.
pub open spec fn field_step(field: String, c: FieldConfig, a: Annotation) -> Result<
    FieldConfig,
    AttrError,
> {
    if c.skip && is_field_key(a.key@) {
        Ok(c)
    } else if a.key@ == "skip"@ {
        match a.value {
            None => Ok(FieldConfig { skip: true, ..c }),
            Some(_) => Err(AttrError::MalformedAttributeValue { key: a.key }),
        }
    } else if a.key@ == "cast_field"@ {
        match a.value {
            None => if c.cast_strategy == Some(TypeCast::CastValue) {
                Err(AttrError::ConflictingCastStrategy { field })
            } else {
                Ok(FieldConfig { cast_strategy: Some(TypeCast::CastField), ..c })
            },
            Some(_) => Err(AttrError::MalformedAttributeValue { key: a.key }),
        }
    } else if a.key@ == "cast_value"@ {
        match a.value {
            None => if c.cast_strategy == Some(TypeCast::CastField) {
                Err(AttrError::ConflictingCastStrategy { field })
            } else {
                Ok(FieldConfig { cast_strategy: Some(TypeCast::CastValue), ..c })
            },
            Some(_) => Err(AttrError::MalformedAttributeValue { key: a.key }),
        }
    } else if a.key@ == "static_epsilon"@ {
        match a.value {
            Some(v) => Ok(FieldConfig { epsilon_static_value: Some(v), ..c }),
            None => Err(AttrError::MalformedAttributeValue { key: a.key }),
        }
    } else if a.key@ == "static_max_relative"@ {
        match a.value {
            Some(v) => Ok(FieldConfig { max_relative_static_value: Some(v), ..c }),
            None => Err(AttrError::MalformedAttributeValue { key: a.key }),
        }
    } else {
        Err(AttrError::UnrecognizedAttribute { key: a.key, scope: Scope::Field })
    }
}

/// Field-level entries read in order; the first refused entry decides the error.
pub open spec fn field_config_of(field: String, entries: Seq<Annotation>) -> Result<
    FieldConfig,
    AttrError,
>
    decreases entries.len(),
{
    if entries.len() == 0 {
        Ok(empty_field_config())
    } else {
        match field_config_of(field, entries.drop_last()) {
            Ok(c) => field_step(field, c, entries.last()),
            Err(e) => Err(e),
        }
    }
}

fn key_is(k: &String, lit: &str) -> (r: bool)
    ensures
        r == (k@ == lit@),
{
    let l: String = lit.to_owned();
    *k == l
}

pub(crate) fn clone_text(s: &String) -> (r: String)
    ensures
        r == *s,
{
    s.clone()
}

fn malformed(a: &Annotation) -> (r: AttrError)
    ensures
        r == (AttrError::MalformedAttributeValue { key: a.key }),
{
    AttrError::MalformedAttributeValue { key: clone_text(&a.key) }
}

fn apply_struct_entry(c: StructConfig, a: &Annotation) -> (r: Result<StructConfig, AttrError>)
    ensures
        r == struct_step(c, *a),
{
    if key_is(&a.key, "epsilon_type") {
        match &a.value {
            Some(v) => Ok(StructConfig { epsilon_type: Some(clone_text(v)), ..c }),
            None => Err(malformed(a)),
        }
    } else if key_is(&a.key, "default_epsilon") {
        match &a.value {
            Some(v) => Ok(StructConfig { default_epsilon_value: Some(clone_text(v)), ..c }),
            None => Err(malformed(a)),
        }
    } else if key_is(&a.key, "default_max_relative") {
        match &a.value {
            Some(v) => Ok(StructConfig { default_max_relative_value: Some(clone_text(v)), ..c }),
            None => Err(malformed(a)),
        }
    } else {
        Err(AttrError::UnrecognizedAttribute { key: clone_text(&a.key), scope: Scope::Struct })
    }
}

/// Reads the record-level `approx(...)` annotations; attributes under any other
/// path are left alone.
pub fn parse_struct_config(attrs: &Vec<Attribute>) -> (r: Result<StructConfig, AttrError>)
    ensures
        r == struct_config_of(approx_entries(attrs@)),
{
    let mut acc: Result<StructConfig, AttrError> = Ok(
        StructConfig { epsilon_type: None, default_epsilon_value: None, default_max_relative_value: None },
    );
    let mut i: usize = 0;
    while i < attrs.len()
        invariant
            i <= attrs@.len(),
            acc == struct_config_of(approx_entries(attrs@.take(i as int))),
        decreases attrs@.len() - i,
    {
        let attr = &attrs[i];
        proof {
            assert(attrs@.take(i as int + 1).drop_last() =~= attrs@.take(i as int));
        }
        if key_is(&attr.path, "approx") {
            let ghost before = approx_entries(attrs@.take(i as int));
            let mut j: usize = 0;
            while j < attr.entries.len()
                invariant
                    i < attrs@.len(),
                    *attr == attrs@[i as int],
                    j <= attr.entries@.len(),
                    acc == struct_config_of(before + attr.entries@.take(j as int)),
                decreases attr.entries@.len() - j,
            {
                proof {
                    let s = before + attr.entries@.take(j as int + 1);
                    assert(s.drop_last() =~= before + attr.entries@.take(j as int));
                    assert(s.last() == attr.entries@[j as int]);
                }
                acc = match acc {
                    Ok(c) => apply_struct_entry(c, &attr.entries[j]),
                    Err(e) => Err(e),
                };
                j = j + 1;
            }
            proof {
                assert(attr.entries@.take(j as int) =~= attr.entries@);
            }
        }
        i = i + 1;
    }
    proof {
        assert(attrs@.take(i as int) =~= attrs@);
    }
    acc
}

fn is_known_field_key(k: &String) -> (r: bool)
    ensures
        r == is_field_key(k@),
{
    key_is(k, "skip") || key_is(k, "cast_field") || key_is(k, "cast_value") || key_is(
        k,
        "static_epsilon",
    ) || key_is(k, "static_max_relative")
}

fn apply_field_entry(field: &String, c: FieldConfig, a: &Annotation) -> (r: Result<
    FieldConfig,
    AttrError,
>)
    ensures
        r == field_step(*field, c, *a),
{
    if c.skip && is_known_field_key(&a.key) {
        Ok(c)
    } else if key_is(&a.key, "skip") {
        match &a.value {
            None => Ok(FieldConfig { skip: true, ..c }),
            Some(_) => Err(malformed(a)),
        }
    } else if key_is(&a.key, "cast_field") {
        match &a.value {
            None => match c.cast_strategy {
                Some(TypeCast::CastValue) => Err(
                    AttrError::ConflictingCastStrategy { field: clone_text(field) },
                ),
                _ => Ok(FieldConfig { cast_strategy: Some(TypeCast::CastField), ..c }),
            },
            Some(_) => Err(malformed(a)),
        }
    } else if key_is(&a.key, "cast_value") {
        match &a.value {
            None => match c.cast_strategy {
                Some(TypeCast::CastField) => Err(
                    AttrError::ConflictingCastStrategy { field: clone_text(field) },
                ),
                _ => Ok(FieldConfig { cast_strategy: Some(TypeCast::CastValue), ..c }),
            },
            Some(_) => Err(malformed(a)),
        }
    } else if key_is(&a.key, "static_epsilon") {
        match &a.value {
            Some(v) => Ok(FieldConfig { epsilon_static_value: Some(clone_text(v)), ..c }),
            None => Err(malformed(a)),
        }
    } else if key_is(&a.key, "static_max_relative") {
        match &a.value {
            Some(v) => Ok(FieldConfig { max_relative_static_value: Some(clone_text(v)), ..c }),
            None => Err(malformed(a)),
        }
    } else {
        Err(AttrError::UnrecognizedAttribute { key: clone_text(&a.key), scope: Scope::Field })
    }
}

/// Reads the `approx(...)` annotations of the field named `field`; attributes
/// under any other path are left alone.
pub fn parse_field_config(field: &String, attrs: &Vec<Attribute>) -> (r: Result<
    FieldConfig,
    AttrError,
>)
    ensures
        r == field_config_of(*field, approx_entries(attrs@)),
{
    let mut acc: Result<FieldConfig, AttrError> = Ok(
        FieldConfig {
            skip: false,
            cast_strategy: None,
            epsilon_static_value: None,
            max_relative_static_value: None,
        },
    );
    let mut i: usize = 0;
    while i < attrs.len()
        invariant
            i <= attrs@.len(),
            acc == field_config_of(*field, approx_entries(attrs@.take(i as int))),
        decreases attrs@.len() - i,
    {
        let attr = &attrs[i];
        proof {
            assert(attrs@.take(i as int + 1).drop_last() =~= attrs@.take(i as int));
        }
        if key_is(&attr.path, "approx") {
            let ghost before = approx_entries(attrs@.take(i as int));
            let mut j: usize = 0;
            while j < attr.entries.len()
                invariant
                    i < attrs@.len(),
                    *attr == attrs@[i as int],
                    j <= attr.entries@.len(),
                    acc == field_config_of(*field, before + attr.entries@.take(j as int)),
                decreases attr.entries@.len() - j,
            {
                proof {
                    let s = before + attr.entries@.take(j as int + 1);
                    assert(s.drop_last() =~= before + attr.entries@.take(j as int));
                    assert(s.last() == attr.entries@[j as int]);
                }
                acc = match acc {
                    Ok(c) => apply_field_entry(field, c, &attr.entries[j]),
                    Err(e) => Err(e),
                };
                j = j + 1;
            }
            proof {
                assert(attr.entries@.take(j as int) =~= attr.entries@);
            }
        }
        i = i + 1;
    }
    proof {
        assert(attrs@.take(i as int) =~= attrs@);
    }
    acc
}

} // verus!
