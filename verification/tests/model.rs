use clang_model::bridge::bridge_external_text;
use clang_model::cursor::Cursor;
use clang_model::error::ErrorCode;
use clang_model::index::Index;
use clang_model::ty::{type_kind_from_code, Type, TypeKind};

const KIND_INVALID: u32 = 0;
const KIND_INT: u32 = 17;
const KIND_TYPEDEF: u32 = 107;
const KIND_FUNCTION_PROTO: u32 = 111;
const KIND_AUTO: u32 = 118;

fn sample_type(session: u64, eq_class: u64, kind_code: u32) -> Type {
    Type::new(
        session,
        eq_class,
        kind_code,
        false,
        false,
        false,
        false,
        false,
        false,
        "int".to_string(),
        7,
    )
}

#[test]
fn index_is_disposed_exactly_once_yielding_its_handle() {
    let ix = Index::new(true, false, 42);
    assert!(ix.allow_pch_locals());
    assert!(!ix.diagnostics_enabled());
    // The rendering is an opaque placeholder: no field leaks through it.
    assert_eq!(ix.debug_text(), "Index { }");
    // `dispose` consumes the value, so a second disposal of the same
    // environment cannot even be written.
    assert_eq!(ix.dispose(), 42);
}

#[test]
fn error_codes_map_both_ways() {
    assert_eq!(ErrorCode::from_code(0), ErrorCode::Success);
    assert_eq!(ErrorCode::from_code(1), ErrorCode::Failure);
    assert_eq!(ErrorCode::from_code(2), ErrorCode::Crashed);
    assert_eq!(ErrorCode::from_code(3), ErrorCode::InvalidArguments);
    assert_eq!(ErrorCode::from_code(4), ErrorCode::ASTReadError);
    // A code that has not been assigned a meaning is still an error.
    assert_eq!(ErrorCode::from_code(7), ErrorCode::Failure);
    assert!(ErrorCode::Success.is_success());
    assert!(!ErrorCode::Crashed.is_success());
    for c in 0..5usize {
        assert_eq!(ErrorCode::from_code(c).code(), c);
    }
}

#[test]
fn kind_codes_map_into_the_closed_classification() {
    assert_eq!(type_kind_from_code(KIND_INVALID), TypeKind::Invalid);
    assert_eq!(type_kind_from_code(KIND_INT), TypeKind::Int);
    assert_eq!(type_kind_from_code(KIND_TYPEDEF), TypeKind::Typedef);
    assert_eq!(type_kind_from_code(KIND_FUNCTION_PROTO), TypeKind::FunctionProto);
    assert_eq!(type_kind_from_code(KIND_AUTO), TypeKind::Auto);
    assert_eq!(type_kind_from_code(999), TypeKind::Other(999));
}

#[test]
fn invalid_type_spells_as_the_empty_string() {
    let t = Type::new(
        1,
        0,
        KIND_INVALID,
        false,
        false,
        false,
        false,
        false,
        false,
        "garbage".to_string(),
        0,
    );
    assert_eq!(t.kind(), TypeKind::Invalid);
    assert_eq!(t.spelling(), "");
}

#[test]
fn valid_type_keeps_its_exact_spelling() {
    let t = sample_type(1, 1, KIND_INT);
    assert_eq!(t.kind(), TypeKind::Int);
    assert_eq!(t.spelling(), "int");
}

#[test]
fn qualifiers_report_the_exact_type_level() {
    // `const int` carries the qualifier on the type node itself...
    let direct = Type::new(
        1,
        1,
        KIND_INT,
        true,
        false,
        false,
        false,
        true,
        false,
        "const int".to_string(),
        2,
    );
    assert!(direct.is_const());
    // ...while a typedef whose underlying type added `const` at another
    // level reports only its own, unqualified, level.
    let through_alias = Type::new(
        1,
        2,
        KIND_TYPEDEF,
        false,
        false,
        false,
        false,
        true,
        false,
        "T".to_string(),
        3,
    );
    assert!(!through_alias.is_const());
    assert!(!through_alias.is_volatile());
    assert!(!through_alias.is_restrict());
}

#[test]
fn variadic_holds_only_of_function_types() {
    let variadic_fn = Type::new(
        1,
        4,
        KIND_FUNCTION_PROTO,
        false,
        false,
        false,
        true,
        false,
        false,
        "void (int, ...)".to_string(),
        4,
    );
    assert!(variadic_fn.is_variadic());
    let fixed_fn = Type::new(
        1,
        5,
        KIND_FUNCTION_PROTO,
        false,
        false,
        false,
        false,
        false,
        false,
        "void (int)".to_string(),
        5,
    );
    assert!(!fixed_fn.is_variadic());
    // A non-function type can never be variadic, whatever the raw
    // report said.
    let not_a_fn = Type::new(
        1,
        6,
        KIND_INT,
        false,
        false,
        false,
        true,
        false,
        false,
        "int".to_string(),
        6,
    );
    assert!(!not_a_fn.is_variadic());
}

#[test]
fn type_equality_is_structural_and_session_scoped() {
    // Two distinct handles resolved to the same type compare equal.
    let a = sample_type(1, 9, KIND_INT);
    let b = sample_type(1, 9, KIND_INT);
    let c = sample_type(1, 10, KIND_TYPEDEF);
    let other_session = sample_type(2, 9, KIND_INT);
    assert!(a.types_equal(&a));
    assert!(a.types_equal(&b));
    assert!(b.types_equal(&a));
    assert!(!a.types_equal(&c));
    assert!(!a.types_equal(&other_session));
    assert!(a == b);
    assert!(a != c);
}

#[test]
fn declaration_is_bound_to_the_same_session() {
    let t = Type::new(
        8,
        1,
        KIND_TYPEDEF,
        false,
        false,
        false,
        false,
        false,
        false,
        "T".to_string(),
        31,
    );
    let d = t.declaration();
    assert_eq!(d.session(), 8);
    assert_eq!(d.node(), 31);
}

#[test]
fn auto_deduction_status_is_reported_for_auto_types() {
    let failed = Type::new(
        1,
        1,
        KIND_AUTO,
        false,
        false,
        false,
        false,
        false,
        true,
        "auto".to_string(),
        1,
    );
    assert!(failed.is_non_deductible_auto_type());
    let deduced = Type::new(
        1,
        2,
        KIND_AUTO,
        false,
        false,
        false,
        false,
        false,
        false,
        "auto".to_string(),
        2,
    );
    assert!(!deduced.is_non_deductible_auto_type());
}

#[test]
fn cursors_compare_within_their_session() {
    let a = Cursor::new(1, 5);
    let b = Cursor::new(1, 5);
    let c = Cursor::new(1, 6);
    let d = Cursor::new(2, 5);
    assert!(a == b);
    assert!(a != c);
    assert!(a != d);
    assert!(a.same_session(&c));
    assert!(!a.same_session(&d));
}

#[test]
fn null_buffer_yields_empty_string_and_no_release() {
    let (text, release) = bridge_external_text(None);
    assert_eq!(text, "");
    assert!(!release);
}

#[test]
fn non_null_buffer_yields_its_text_and_one_release() {
    let (text, release) = bridge_external_text(Some("const int".to_string()));
    assert_eq!(text, "const int");
    assert!(release);
}
