use cedar_java_ffi::classes::{check_class, same_text, Accessor, ManagedClass};
use cedar_java_ffi::entity::{EntityIdentifier, EntityUidValue};
use cedar_java_ffi::error::ConversionError;
use cedar_java_ffi::names::{contains_separator, join_with_separator};
use cedar_java_ffi::objects::{
    JEntityId, JEntityTypeName, JEntityUID, JFormatterConfig, JOptional, JPolicy, Object, OptionalFactory,
};
use cedar_java_ffi::qualified::TypeName;

fn strings(parts: &[&str]) -> Vec<String> {
    parts.iter().map(|s| s.to_string()).collect()
}

#[test]
fn separator_detection() {
    assert!(contains_separator("a::b"));
    assert!(contains_separator("::"));
    assert!(!contains_separator("a:b"));
    assert!(!contains_separator(""));
    assert!(!contains_separator(":"));
}

#[test]
fn joining_components() {
    assert_eq!(join_with_separator(&strings(&["A", "B", "C"])), "A::B::C");
    assert_eq!(join_with_separator(&strings(&["C"])), "C");
    assert_eq!(join_with_separator(&Vec::new()), "");
}

#[test]
fn construct_matches_parsing_joined_text() {
    let built = TypeName::from_components(&strings(&["NS", "Inner"]), "T").unwrap();
    let parsed = TypeName::parse("NS::Inner::T").unwrap();
    assert_eq!(built, parsed);
    assert_eq!(built.to_string_repr(), "NS::Inner::T");
    assert_eq!(built.namespace_components(), strings(&["NS", "Inner"]));
    assert_eq!(built.basename(), "T");
}

#[test]
fn decode_of_constructed_round_trips() {
    let ns = strings(&["Foo"]);
    let built = JEntityTypeName::new(7u32, TypeName::from_components(&ns, "Bar").unwrap());
    let decoded = JEntityTypeName::cast(*built.as_ref(), &built.get_namespace(), &built.get_basename()).unwrap();
    assert_eq!(decoded.get_rust_repr(), TypeName::parse("Foo::Bar").unwrap());
    assert_eq!(decoded.get_string_repr(), "Foo::Bar");
    assert_eq!(decoded.into_object(), 7u32);
}

#[test]
fn construct_without_namespace() {
    let t = TypeName::from_components(&Vec::new(), "User").unwrap();
    assert_eq!(t.to_string_repr(), "User");
    assert!(t.namespace_components().is_empty());
}

#[test]
fn component_with_separator_is_rejected() {
    let r = TypeName::from_components(&strings(&["A::B"]), "C");
    assert!(matches!(r, Err(ConversionError::Parse(_))));
    let r = TypeName::from_components(&strings(&["A"]), "B::C");
    assert!(matches!(r, Err(ConversionError::Parse(_))));
    let r = JEntityTypeName::cast(1u8, &strings(&["X::Y"]), "Z");
    assert!(matches!(r, Err(ConversionError::Parse(_))));
}

#[test]
fn invalid_components_are_rejected() {
    assert!(matches!(TypeName::from_components(&strings(&["a:b"]), "C"), Err(ConversionError::Parse(_))));
    assert!(matches!(TypeName::from_components(&Vec::new(), ""), Err(ConversionError::Parse(_))));
    assert!(matches!(TypeName::from_components(&Vec::new(), "has space"), Err(ConversionError::Parse(_))));
}

#[test]
fn parse_present_and_absent() {
    let present = JEntityTypeName::<u8>::parse("Foo::Bar").into_option().unwrap();
    assert_eq!(present.basename(), "Bar");
    assert_eq!(present.namespace_components(), strings(&["Foo"]));
    assert_eq!(present.to_string_repr(), "Foo::Bar");
    let absent = JEntityTypeName::<u8>::parse("not a valid name");
    assert!(!absent.is_present());
    assert_eq!(absent.factory(), OptionalFactory::Empty);
}

#[test]
fn parse_requires_normalized_form() {
    assert!(TypeName::parse("Foo :: Bar").is_none());
    assert!(TypeName::parse("").is_none());
}

#[test]
fn identifier_escaping() {
    let constructed = JEntityId::new(3u8, "a\"b\n");
    assert_eq!(constructed.get_string_repr(), "a\\\"b\\n");
    let decoded = JEntityId::cast(3u8, &constructed.get_rust_repr().unescaped());
    assert_eq!(decoded.get_string_repr(), constructed.get_string_repr());
    assert_eq!(decoded.get_rust_repr(), EntityIdentifier::new("a\"b\n"));
    assert_eq!(JEntityId::new(0u8, "abc").get_string_repr(), "abc");
}

#[test]
fn class_mismatch_is_reported() {
    let r = check_class(ManagedClass::EntityUid, "com/cedarpolicy/model/policy/Policy");
    match r {
        Err(ConversionError::ClassMismatch { expected, actual }) => {
            assert_eq!(expected, "com/cedarpolicy/value/EntityUID");
            assert_eq!(actual, "com/cedarpolicy/model/policy/Policy");
        }
        _ => panic!("expected a class mismatch"),
    }
    assert!(check_class(ManagedClass::EntityTypeName, "java/lang/String").is_err());
}

#[test]
fn class_match_lists_accessors_in_order() {
    let r = check_class(ManagedClass::EntityTypeName, "com/cedarpolicy/value/EntityTypeName").unwrap();
    assert_eq!(r, vec![Accessor::GetNamespace, Accessor::GetBaseName]);
    assert_eq!(r[0].method_name(), "getNamespace");
    assert_eq!(r[1].signature(), "()Ljava/lang/String;");
    let r = check_class(ManagedClass::EntityIdentifier, "com/cedarpolicy/value/EntityIdentifier").unwrap();
    assert_eq!(r, vec![Accessor::GetId]);
    assert!(check_class(ManagedClass::EntityUid, "com/cedarpolicy/value/EntityUID").unwrap().is_empty());
    assert!(check_class(ManagedClass::JavaString, "java/lang/String").unwrap().is_empty());
    assert_eq!(ManagedClass::Policy.class_name(), "com/cedarpolicy/model/policy/Policy");
}

#[test]
fn text_comparison() {
    assert!(same_text("abc", "abc"));
    assert!(!same_text("abc", "abd"));
    assert!(!same_text("abc", "ab"));
    assert!(same_text("", ""));
}

#[test]
fn entity_reference_composite() {
    let t = TypeName::from_components(&strings(&["NS"]), "T").unwrap();
    let uid = EntityUidValue::new(t, EntityIdentifier::new("abc"));
    let text = uid.to_string_repr();
    assert_eq!(text, "NS::T::\"abc\"");
    let reparsed = JEntityUID::<u8>::parse(&text).into_option().unwrap();
    assert_eq!(reparsed, uid);
    assert_eq!(reparsed.entity_type().to_string_repr(), "NS::T");
    assert_eq!(reparsed.id().unescaped(), "abc");
}

#[test]
fn entity_reference_with_escaped_identifier() {
    let uid = EntityUidValue::parse("User::\"a\\\"b\"").unwrap();
    assert_eq!(uid.id().unescaped(), "a\"b");
    assert_eq!(uid.entity_type().to_string_repr(), "User");
    assert_eq!(uid.to_string_repr(), "User::\"a\\\"b\"");
}

#[test]
fn entity_reference_parse_absent() {
    assert!(!JEntityUID::<u8>::parse("User::alice").is_present());
    assert!(!JEntityUID::<u8>::parse("User :: \"alice\"").is_present());
    assert!(EntityUidValue::parse("").is_none());
}

#[test]
fn optional_bridge_agrees_with_factories() {
    let none: JOptional<u8> = JOptional::from_optional(None);
    let empty: JOptional<u8> = JOptional::empty();
    assert_eq!(none.factory(), empty.factory());
    assert_eq!(none.into_option(), empty.into_option());
    let some = JOptional::from_optional(Some(5u8));
    let of = JOptional::of(5u8);
    assert_eq!(some.factory(), OptionalFactory::Of);
    assert_eq!(some.factory(), of.factory());
    assert_eq!(some.into_option(), of.into_option());
    assert_eq!(OptionalFactory::Of.method_name(), "of");
    assert_eq!(OptionalFactory::Empty.signature(), "()Ljava/util/Optional;");
}

#[test]
fn formatter_widths() {
    let c = JFormatterConfig::cast(0u8, 80, -2).unwrap();
    assert_eq!(c.line_width(), 80);
    assert_eq!(c.indent_width(), -2);
    assert!(matches!(JFormatterConfig::cast(0u8, -1, 2), Err(ConversionError::Parse(_))));
}

#[test]
fn opaque_wrappers_keep_their_handle() {
    assert_eq!(*JEntityUID::cast(9u16).as_ref(), 9u16);
    assert_eq!(*JEntityUID::new(4u16).as_ref(), 4u16);
    assert_eq!(*JPolicy::cast(2u16).as_ref(), 2u16);
    assert_eq!(*JPolicy::new(1u16).as_ref(), 1u16);
}

#[test]
fn wrappers_name_their_class() {
    assert_eq!(<JEntityUID<u8> as Object<u8>>::managed_class(), ManagedClass::EntityUid);
    assert_eq!(<JEntityTypeName<u8> as Object<u8>>::managed_class(), ManagedClass::EntityTypeName);
    assert_eq!(<JEntityId<u8> as Object<u8>>::managed_class(), ManagedClass::EntityIdentifier);
    assert_eq!(<JPolicy<u8> as Object<u8>>::managed_class(), ManagedClass::Policy);
    assert_eq!(<JFormatterConfig<u8> as Object<u8>>::managed_class(), ManagedClass::FormatterConfig);
    let uid = JEntityUID::cast(6u8);
    assert_eq!(*Object::object(&uid), 6u8);
    assert_eq!(uid.into_object(), 6u8);
}

#[test]
fn type_name_grammar() {
    assert!(TypeName::parse("_a1::B_2").is_some());
    assert!(TypeName::parse("1a").is_none());
    assert!(TypeName::parse("if::A").is_none());
    assert!(TypeName::parse("A::__cedar").is_none());
    assert!(TypeName::parse("A::").is_none());
    assert!(TypeName::parse("A:::B").is_none());
    assert!(TypeName::parse("principal").is_some());
}

#[test]
fn entity_reference_without_identifier_is_absent() {
    assert!(!JEntityUID::<u8>::parse("NS::T").is_present());
    let u = EntityUidValue::parse("A::B::C::\"x y\"").unwrap();
    assert_eq!(u.entity_type().namespace_components(), strings(&["A", "B"]));
    assert_eq!(u.entity_type().basename(), "C");
    assert_eq!(u.id().unescaped(), "x y");
}
