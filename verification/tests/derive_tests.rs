use swapbytes::derivation::{
    derive_swap_bytes, DeriveError, EnumDesc, FieldAttr, FieldDesc, ReprInt, StructDesc, SwapPlan,
    TypeDesc,
};
use swapbytes::SwapBytes;

fn field(name: &str, attr: FieldAttr) -> FieldDesc {
    FieldDesc { name: name.to_string(), attr }
}

#[test]
fn struct_plan_keeps_declaration_order_and_drops_skipped_fields() {
    let desc = TypeDesc::Struct(StructDesc {
        generics: String::new(),
        where_clause: None,
        fields: vec![
            field("a", FieldAttr::Skip),
            field("b", FieldAttr::Keep),
            field("c", FieldAttr::Keep),
        ],
    });
    match derive_swap_bytes(&desc) {
        Ok(SwapPlan::Struct(plan)) => {
            assert_eq!(plan.swapped_fields, vec!["b".to_string(), "c".to_string()]);
            assert_eq!(plan.generics, String::new());
            assert_eq!(plan.where_clause, None);
        }
        _ => panic!("expected a struct plan"),
    }
}

#[test]
fn struct_plan_preserves_generics_and_where_clause() {
    let desc = TypeDesc::Struct(StructDesc {
        generics: "<T, U>".to_string(),
        where_clause: Some("where T: Copy".to_string()),
        fields: vec![field("first", FieldAttr::Keep), field("second", FieldAttr::Keep)],
    });
    match derive_swap_bytes(&desc) {
        Ok(SwapPlan::Struct(plan)) => {
            assert_eq!(plan.generics, "<T, U>");
            assert_eq!(plan.where_clause, Some("where T: Copy".to_string()));
            assert_eq!(
                plan.swapped_fields,
                vec!["first".to_string(), "second".to_string()]
            );
        }
        _ => panic!("expected a struct plan"),
    }
}

#[test]
fn malformed_field_annotation_fails_derivation() {
    let desc = TypeDesc::Struct(StructDesc {
        generics: String::new(),
        where_clause: None,
        fields: vec![field("ok", FieldAttr::Keep), field("bad", FieldAttr::Malformed)],
    });
    match derive_swap_bytes(&desc) {
        Err(e) => assert_eq!(e, DeriveError::MalformedFieldAttr),
        Ok(_) => panic!("derivation should fail on a malformed annotation"),
    }
}

#[test]
fn enum_plan_delegates_to_the_representation_type() {
    let desc = TypeDesc::Enum(EnumDesc { repr: Some(ReprInt::U16) });
    match derive_swap_bytes(&desc) {
        Ok(SwapPlan::Enum(plan)) => assert_eq!(plan.repr, ReprInt::U16),
        _ => panic!("expected an enum plan"),
    }
}

#[test]
fn enum_without_repr_fails_derivation() {
    let desc = TypeDesc::Enum(EnumDesc { repr: None });
    match derive_swap_bytes(&desc) {
        Err(e) => assert_eq!(e, DeriveError::MissingRepr),
        Ok(_) => panic!("an enum without a representation type must be rejected"),
    }
}

#[test]
fn unsupported_shape_fails_derivation() {
    match derive_swap_bytes(&TypeDesc::Other) {
        Err(e) => assert_eq!(e, DeriveError::UnsupportedShape),
        Ok(_) => panic!("only structs and enums are supported"),
    }
}

#[derive(Clone, Copy, PartialEq, Eq, Debug)]
enum Signal {
    Idle,
    Saturated,
}

fn signal_to_repr(s: Signal) -> u8 {
    match s {
        Signal::Idle => 0x00,
        Signal::Saturated => 0xFF,
    }
}

fn signal_from_repr(d: u8) -> Signal {
    match d {
        0x00 => Signal::Idle,
        0xFF => Signal::Saturated,
        _ => panic!("discriminant does not name a variant"),
    }
}

fn swap_signal(s: Signal) -> Signal {
    let mut d: u8 = signal_to_repr(s);
    d.swap_bytes_mut();
    signal_from_repr(d)
}

#[test]
fn enum_with_symmetric_discriminants_round_trips() {
    for &s in &[Signal::Idle, Signal::Saturated] {
        assert_eq!(swap_signal(swap_signal(s)), s);
    }
}
