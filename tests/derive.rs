use approx::{AbsDiffEq, RelativeEq};
use approx_derive::attrs::{
    parse_field_config, parse_struct_config, AttrError, Annotation, Attribute, Scope, TypeCast,
};
use approx_derive::codegen::{derive_abs_diff_eq, derive_rel_diff_eq};
use approx_derive::plan::{AbsDiffEqParser, FieldDefinition, Generics, TypeDefinition};

fn entry(key: &str) -> Annotation {
    Annotation { key: key.to_string(), value: None }
}

fn entry_with(key: &str, value: &str) -> Annotation {
    Annotation { key: key.to_string(), value: Some(value.to_string()) }
}

fn approx_attr(entries: Vec<Annotation>) -> Attribute {
    Attribute { path: "approx".to_string(), entries }
}

fn field(name: &str, ty: &str, entries: Vec<Annotation>) -> FieldDefinition {
    let attrs = if entries.is_empty() { vec![] } else { vec![approx_attr(entries)] };
    FieldDefinition { name: name.to_string(), ty: ty.to_string(), attrs }
}

fn no_generics() -> Generics {
    Generics { impl_generics: String::new(), ty_generics: String::new(), where_clause: String::new() }
}

fn record(name: &str, entries: Vec<Annotation>, fields: Vec<FieldDefinition>) -> TypeDefinition {
    let attrs = if entries.is_empty() { vec![] } else { vec![approx_attr(entries)] };
    TypeDefinition { name: name.to_string(), generics: no_generics(), attrs, fields }
}

/// Runs the resolved plan of a record of `f64` fields the way the emitted
/// `abs_diff_eq` does: one comparison per compared field, each at its static
/// epsilon or at the caller's.
fn plan_abs_diff_eq(def: TypeDefinition, own: &[f64], other: &[f64], epsilon: f64) -> bool {
    let parsed = AbsDiffEqParser::parse(def).ok().unwrap();
    let mut result = true;
    for (i, f) in parsed.fields_with_args.iter().enumerate() {
        if let Some(formatted) = parsed.format_field(f) {
            let tolerance = if formatted.epsilon == "epsilon" {
                epsilon
            } else {
                formatted.epsilon.parse::<f64>().unwrap()
            };
            result = result && f64::abs_diff_eq(&own[i], &other[i], tolerance);
        }
    }
    result
}

fn position() -> TypeDefinition {
    record("Position", vec![], vec![field("x", "f64", vec![]), field("y", "f64", vec![])])
}

fn rectangle() -> TypeDefinition {
    record(
        "Rectangle",
        vec![],
        vec![
            field("a", "f64", vec![entry_with("static_epsilon", "5e-2")]),
            field("b", "f64", vec![]),
            field("c", "f64", vec![entry_with("static_epsilon", "7e-2")]),
        ],
    )
}

#[test]
fn position_emitted_text() {
    let text = derive_abs_diff_eq(position()).ok().unwrap();
    assert_eq!(
        text,
        "const _ : () = { impl approx::AbsDiffEq for Position  { type Epsilon = f64; \
         fn default_epsilon() -> Self::Epsilon { <f64 as approx::AbsDiffEq>::default_epsilon() } \
         fn abs_diff_eq(&self, other: &Self, epsilon: Self::Epsilon) -> bool { \
         <f64 as approx::AbsDiffEq>::abs_diff_eq(&self.x, &other.x, epsilon) && \
         <f64 as approx::AbsDiffEq>::abs_diff_eq(&self.y, &other.y, epsilon) && true } } };"
    );
}

#[test]
fn position_within_and_outside_tolerance() {
    let p1 = [1.01, 2.36];
    let p2 = [0.99, 2.38];
    assert!(plan_abs_diff_eq(position(), &p1, &p2, 0.021));
    assert!(!plan_abs_diff_eq(position(), &p1, &p2, 0.019));
}

#[test]
fn static_epsilons_override_caller() {
    let r1 = [100.01, 40.0001, 30.055];
    let r2 = [99.97, 40.0005, 30.049];
    assert!(plan_abs_diff_eq(rectangle(), &r1, &r2, 1e-1));
    assert!(plan_abs_diff_eq(rectangle(), &r1, &r2, 1e-2));
    assert!(plan_abs_diff_eq(rectangle(), &r1, &r2, 1e-3));
    assert!(!plan_abs_diff_eq(rectangle(), &r1, &r2, 1e-4));
    // with b within 1e-4, the larger gaps of a and c stay covered by their statics
    let r3 = [99.97, 40.00015, 30.049];
    assert!(plan_abs_diff_eq(rectangle(), &r1, &r3, 1e-4));
}

#[test]
fn static_epsilon_field_ignores_caller_epsilon() {
    let def = || record("One", vec![], vec![field("a", "f64", vec![entry_with("static_epsilon", "5e-2")])]);
    for eps in [0.0, 1e-6, 1e-2, 1.0, 100.0] {
        assert!(plan_abs_diff_eq(def(), &[1.0], &[1.04], eps));
        assert!(!plan_abs_diff_eq(def(), &[1.0], &[1.06], eps));
    }
}

#[test]
fn reflexive_at_zero_tolerance() {
    let v = [3.25, -7.5];
    assert!(plan_abs_diff_eq(position(), &v, &v, 0.0));
}

#[test]
fn all_skipped_is_always_equal() {
    let def = record("Ids", vec![], vec![field("id", "f64", vec![entry("skip")]), field("n", "u32", vec![entry("skip")])]);
    let text = derive_abs_diff_eq(def).ok().unwrap();
    assert!(text.ends_with("fn abs_diff_eq(&self, other: &Self, epsilon: Self::Epsilon) -> bool { true } } };"));
    let def = record("Ids", vec![], vec![field("id", "f64", vec![entry("skip")])]);
    assert!(plan_abs_diff_eq(def, &[1.0], &[1000.0], 0.0));
}

#[test]
fn field_less_record_defaults_to_f64() {
    let def = record("Unit", vec![], vec![]);
    let text = derive_rel_diff_eq(def).ok().unwrap();
    assert_eq!(
        text,
        "const _ : () = { impl approx::AbsDiffEq for Unit  { type Epsilon = f64; \
         fn default_epsilon() -> Self::Epsilon { <f64 as approx::AbsDiffEq>::default_epsilon() } \
         fn abs_diff_eq(&self, other: &Self, epsilon: Self::Epsilon) -> bool { true } } };\
         const _ : () = { impl approx::RelativeEq for Unit  { \
         fn default_max_relative() -> Self::Epsilon { <f64 as approx::RelativeEq>::default_max_relative() } \
         fn relative_eq(&self, other: &Self, epsilon: Self::Epsilon, max_relative: Self::Epsilon) -> bool { true } } };"
    );
    assert_eq!(<f64 as AbsDiffEq>::default_epsilon(), f64::EPSILON);
    assert_eq!(<f64 as RelativeEq>::default_max_relative(), f64::EPSILON);
}

#[test]
fn sole_skipped_field_default_epsilon() {
    let def = record("Skipped", vec![], vec![field("v", "f64", vec![entry("skip")])]);
    let parsed = AbsDiffEqParser::parse(def).ok().unwrap();
    let (ty, default) = parsed.get_epsilon_type_and_default_value();
    assert_eq!(ty, "f64");
    assert_eq!(default, "<f64 as approx::AbsDiffEq>::default_epsilon()");
}

#[test]
fn relative_starts_with_absolute() {
    let abs = derive_abs_diff_eq(rectangle()).ok().unwrap();
    let rel = derive_rel_diff_eq(rectangle()).ok().unwrap();
    assert!(rel.starts_with(&abs));
    assert!(rel.len() > abs.len());
    assert!(rel[abs.len()..].contains(
        "<f64 as approx::RelativeEq>::relative_eq(&self.a, &other.a, 5e-2, max_relative) && "
    ));
}

#[test]
fn cast_field_casts_stored_values() {
    let def = record(
        "Mixed",
        vec![],
        vec![field("v1", "f32", vec![]), field("v2", "f64", vec![entry("cast_field")])],
    );
    let parsed = AbsDiffEqParser::parse(def).ok().unwrap();
    let f = parsed.format_field(&parsed.fields_with_args[1]).unwrap();
    assert_eq!(f.base_type, "f32");
    assert_eq!(f.own_field, "&(self.v2 as f32)");
    assert_eq!(f.other_field, "&(other.v2 as f32)");
    assert_eq!(f.epsilon, "epsilon");
    assert_eq!(f.max_relative, "max_relative");
}

#[test]
fn cast_value_casts_tolerances() {
    let def = record(
        "Mixed",
        vec![],
        vec![field("v1", "f32", vec![]), field("v2", "f64", vec![entry("cast_value"), entry_with("static_max_relative", "0.5")])],
    );
    let parsed = AbsDiffEqParser::parse(def).ok().unwrap();
    let f = parsed.format_field(&parsed.fields_with_args[1]).unwrap();
    assert_eq!(f.base_type, "f64");
    assert_eq!(f.own_field, "&self.v2");
    assert_eq!(f.other_field, "&other.v2");
    assert_eq!(f.epsilon, "(epsilon) as f64");
    assert_eq!(f.max_relative, "(0.5) as f64");
}

#[test]
fn casts_diverge_when_precision_is_lost() {
    // the comparisons the two strategies emit, for f64 values and an f32 tolerance
    let (a, b) = (0.0f64, 1e-300f64);
    let cast_field = f32::abs_diff_eq(&(a as f32), &(b as f32), 0.0f32);
    let cast_value = f64::abs_diff_eq(&a, &b, (0.0f32) as f64);
    assert!(cast_field);
    assert!(!cast_value);
    // values that both types hold exactly agree either way
    let (c, d) = (1.5f64, 1.75f64);
    assert_eq!(
        f32::abs_diff_eq(&(c as f32), &(d as f32), 0.25f32),
        f64::abs_diff_eq(&c, &d, (0.25f32) as f64)
    );
}

#[test]
fn epsilon_type_and_defaults_from_record() {
    let def = record(
        "Car",
        vec![entry_with("epsilon_type", "f32"), entry_with("default_epsilon", "10"), entry_with("default_max_relative", "0.1")],
        vec![field("year", "u32", vec![entry("cast_field")]), field("power", "f32", vec![])],
    );
    let parsed = AbsDiffEqParser::parse(def).ok().unwrap();
    assert_eq!(parsed.get_epsilon_type(), "f32");
    assert_eq!(parsed.get_epsilon_type_and_default_value().1, "10");
    assert_eq!(parsed.get_max_relative_default_value(), "0.1");
    let calls = parsed.get_abs_diff_eq_fields();
    assert_eq!(
        calls,
        vec![
            "<f32 as approx::AbsDiffEq>::abs_diff_eq(&(self.year as f32), &(other.year as f32), epsilon) && ".to_string(),
            "<f32 as approx::AbsDiffEq>::abs_diff_eq(&self.power, &other.power, epsilon) && ".to_string(),
        ]
    );
}

#[test]
fn tolerance_type_from_first_field() {
    let def = record("Bench", vec![], vec![field("cycles", "u64", vec![]), field("warm_up", "u64", vec![])]);
    let parsed = AbsDiffEqParser::parse(def).ok().unwrap();
    assert_eq!(parsed.get_epsilon_type(), "u64");
    assert_eq!(parsed.get_max_relative_default_value(), "<u64 as approx::RelativeEq>::default_max_relative()");
    let calls = parsed.get_rel_eq_fields();
    assert_eq!(
        calls[1],
        "<u64 as approx::RelativeEq>::relative_eq(&self.warm_up, &other.warm_up, epsilon, max_relative) && "
    );
}

#[test]
fn generics_are_passed_through() {
    let mut def = position();
    def.generics = Generics {
        impl_generics: "<T: Copy>".to_string(),
        ty_generics: "<T>".to_string(),
        where_clause: "where T: Default".to_string(),
    };
    let text = derive_abs_diff_eq(def).ok().unwrap();
    assert!(text.starts_with("const _ : () = { impl<T: Copy> approx::AbsDiffEq for Position<T> where T: Default { type Epsilon = f64;"));
}

#[test]
fn other_attribute_paths_are_ignored() {
    let attrs = vec![
        Attribute { path: "serde".to_string(), entries: vec![entry("rename_all")] },
        approx_attr(vec![entry_with("default_epsilon", "1e-3")]),
    ];
    let c = parse_struct_config(&attrs).ok().unwrap();
    assert_eq!(c.default_epsilon_value, Some("1e-3".to_string()));
    assert_eq!(c.epsilon_type, None);
    assert_eq!(c.default_max_relative_value, None);
}

#[test]
fn field_config_reads_every_key() {
    let attrs = vec![approx_attr(vec![
        entry("cast_value"),
        entry_with("static_epsilon", "0.1"),
        entry_with("static_max_relative", "0.2"),
    ])];
    let c = parse_field_config(&"v".to_string(), &attrs).ok().unwrap();
    assert!(!c.skip);
    assert_eq!(c.cast_strategy, Some(TypeCast::CastValue));
    assert_eq!(c.epsilon_static_value, Some("0.1".to_string()));
    assert_eq!(c.max_relative_static_value, Some("0.2".to_string()));
    let c = parse_field_config(&"v".to_string(), &vec![approx_attr(vec![entry("cast_field"), entry("skip")])]).ok().unwrap();
    assert!(c.skip);
    assert_eq!(c.cast_strategy, Some(TypeCast::CastField));
}

#[test]
fn keys_after_skip_are_inert() {
    let attrs = vec![approx_attr(vec![
        entry("skip"),
        entry("cast_field"),
        entry("cast_value"),
        entry("static_epsilon"),
        entry_with("skip", "1"),
    ])];
    let c = parse_field_config(&"v".to_string(), &attrs).ok().unwrap();
    assert!(c.skip);
    assert_eq!(c.cast_strategy, None);
    assert_eq!(c.epsilon_static_value, None);
    assert_eq!(c.max_relative_static_value, None);
    // an unknown key is still refused after skip
    match parse_field_config(&"v".to_string(), &vec![approx_attr(vec![entry("skip"), entry("bogus")])]) {
        Err(AttrError::UnrecognizedAttribute { key, scope }) => {
            assert_eq!(key, "bogus");
            assert_eq!(scope, Scope::Field);
        },
        _ => panic!("expected an unrecognized attribute"),
    }
    // a conflict before skip is still a conflict
    match parse_field_config(&"v".to_string(), &vec![approx_attr(vec![entry("cast_field"), entry("cast_value"), entry("skip")])]) {
        Err(AttrError::ConflictingCastStrategy { field }) => assert_eq!(field, "v"),
        _ => panic!("expected a cast conflict"),
    }
}

#[test]
fn sole_skipped_field_of_other_type_falls_back_to_f64() {
    let def = record("E", vec![], vec![field("id", "(usize, usize)", vec![entry("skip")])]);
    let parsed = AbsDiffEqParser::parse(def).ok().unwrap();
    let (ty, default) = parsed.get_epsilon_type_and_default_value();
    assert_eq!(ty, "f64");
    assert_eq!(default, "<f64 as approx::AbsDiffEq>::default_epsilon()");
    let def = record("E", vec![], vec![field("id", "(usize, usize)", vec![entry("skip")])]);
    let text = derive_abs_diff_eq(def).ok().unwrap();
    assert!(text.contains("type Epsilon = f64; fn default_epsilon() -> Self::Epsilon { <f64 as approx::AbsDiffEq>::default_epsilon() }"));
    assert_eq!(<f64 as AbsDiffEq>::default_epsilon(), f64::EPSILON);
}

#[test]
fn tolerance_type_skips_skipped_fields() {
    let def = record(
        "Counted",
        vec![],
        vec![field("id", "(usize, usize)", vec![entry("skip")]), field("n", "u32", vec![]), field("x", "f32", vec![])],
    );
    let parsed = AbsDiffEqParser::parse(def).ok().unwrap();
    assert_eq!(parsed.get_epsilon_type(), "u32");
}

#[test]
fn unknown_struct_key_is_refused() {
    let def = record("R", vec![entry_with("static_epsilon", "1.0")], vec![field("x", "f64", vec![])]);
    match derive_abs_diff_eq(def) {
        Err(AttrError::UnrecognizedAttribute { key, scope }) => {
            assert_eq!(key, "static_epsilon");
            assert_eq!(scope, Scope::Struct);
        },
        _ => panic!("expected an unrecognized attribute"),
    }
}

#[test]
fn unknown_field_key_is_refused() {
    let def = record("R", vec![], vec![field("x", "f64", vec![entry_with("epsilon_type", "f32")])]);
    match derive_rel_diff_eq(def) {
        Err(AttrError::UnrecognizedAttribute { key, scope }) => {
            assert_eq!(key, "epsilon_type");
            assert_eq!(scope, Scope::Field);
        },
        _ => panic!("expected an unrecognized attribute"),
    }
}

#[test]
fn both_casts_conflict() {
    let def = record("R", vec![], vec![field("x", "f64", vec![]), field("y", "f32", vec![entry("cast_field"), entry("cast_value")])]);
    match derive_abs_diff_eq(def) {
        Err(AttrError::ConflictingCastStrategy { field }) => assert_eq!(field, "y"),
        _ => panic!("expected a cast conflict"),
    }
}

#[test]
fn value_on_flag_is_malformed() {
    let def = record("R", vec![], vec![field("x", "f64", vec![entry_with("skip", "true")])]);
    match derive_abs_diff_eq(def) {
        Err(AttrError::MalformedAttributeValue { key }) => assert_eq!(key, "skip"),
        _ => panic!("expected a malformed value"),
    }
}

#[test]
fn missing_value_is_malformed() {
    let def = record("R", vec![entry("default_max_relative")], vec![field("x", "f64", vec![])]);
    match derive_rel_diff_eq(def) {
        Err(AttrError::MalformedAttributeValue { key }) => assert_eq!(key, "default_max_relative"),
        _ => panic!("expected a malformed value"),
    }
}

#[test]
fn first_error_wins() {
    let def = record(
        "R",
        vec![],
        vec![
            field("x", "f64", vec![entry("static_epsilon"), entry("bogus")]),
            field("y", "f64", vec![entry("cast_field"), entry("cast_value")]),
        ],
    );
    match derive_abs_diff_eq(def) {
        Err(AttrError::MalformedAttributeValue { key }) => assert_eq!(key, "static_epsilon"),
        _ => panic!("expected the first field's error"),
    }
}
