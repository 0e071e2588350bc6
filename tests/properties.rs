use solar_rustlib::properties::ObjectPropertyValue::{Float, Integer, Text};
use solar_rustlib::properties::{ObjectPropertyValue, ObjectRegister, AUTO_DESCRIPTION};

#[test]
fn properties_test_object_register_properties() {
    let mut register: ObjectRegister = Default::default();

    assert_eq!(register.get_int("test_int"), None);
    register.add_property("test_int", Integer(12), "Just a simple test variable.");
    register.get_int_mut("test_int").map(|i| *i += 30);
    assert_eq!(register.get_int("test_int"), Some(&42));

    assert_eq!(register.get_float("test_float"), None);
    register.get_float_mut("test_float").map(|f| *f = 3.14f64.to_bits());
    assert_eq!(register.get_float("test_float"), Some(&3.14f64.to_bits()));
    let description = "Just a simple float variable".to_string();
    register.set_description("test_float", &description);
    assert_eq!(register.get_description("test_float"), Some(&description));

    assert_eq!(register.get_float("test_text"), None);
    let text = "Hello World".to_string();
    register.get_text_mut("test_text").map(|t| *t = text.clone());
    assert_eq!(register.get_text("test_text"), Some(&text));
    assert_eq!(register.get_int("test_text"), None);
    assert_eq!(register.get_float("test_text"), None);

    assert_eq!(register.get_display_name("property_does_not_exist"), None);
    assert_eq!(register.get_display_name("test_int"), None);
    let display_name = "Test integer".to_string();
    register.set_display_name("test_int", &display_name[..]);
    assert_eq!(register.get_display_name("test_int"), Some(&display_name));
}

#[test]
fn properties_test_object_register_constants() {
    let mut register = ObjectRegister::new();

    assert_eq!(register.get_int("int_constant"), None);
    register.add_constant("int_constant", Integer(3), "Just a simple test constant.");
    register.get_int_mut("int_constant").map(|i| *i *= 2);
    assert_eq!(register.get_int("int_constant"), Some(&3));
}

#[test]
fn test_object_register_properties() {
    let mut register: ObjectRegister = Default::default();

    assert_eq!(register.get_int("test_int"), None);
    register.add_property("test_int", Integer(12), "Just a simple test variable.");
    register.get_int_mut("test_int").map(|i| *i += 30);
    assert_eq!(register.get_int("test_int"), Some(&42));

    assert_eq!(register.get_float("test_float"), None);
    register.get_float_mut("test_float").map(|f| *f = 3.14f64.to_bits());
    assert_eq!(register.get_float("test_float"), Some(&3.14f64.to_bits()));
    let description = "Just a simple float variable".to_string();
    register.set_description("test_float", &description);
    assert_eq!(register.get_description("test_float"), Some(&description));
}

#[test]
fn test_object_register_constants() {
    let mut register = ObjectRegister::new();

    assert_eq!(register.get_int("int_constant"), None);
    register.add_constant("int_constant", Integer(3), "Just a simple test constant.");
    register.get_int_mut("int_constant").map(|i| *i *= 2);
    assert_eq!(register.get_int("int_constant"), Some(&3));
}

#[test]
fn float_round_trip() {
    let mut register = ObjectRegister::new();
    register.add_property("k", Float(3.14f64.to_bits()), "d");
    assert_eq!(register.get_float("k"), Some(&3.14f64.to_bits()));
    assert_eq!(f64::from_bits(*register.get_float("k").unwrap()), 3.14);
}

#[test]
fn integer_is_not_a_float() {
    let mut register = ObjectRegister::new();
    register.add_property("x", Integer(1), "");
    assert_eq!(register.get_float("x"), None);
    assert_eq!(register.get_text("x"), None);
    assert_eq!(register.get_int("x"), Some(&1));
}

#[test]
fn constant_gets_no_handle() {
    let mut register = ObjectRegister::new();
    register.add_constant("c", Integer(3), "");
    assert!(register.get_int_mut("c").is_none());
    assert_eq!(register.get_int("c"), Some(&3));
    assert!(register.get_float_mut("c").is_none());
    assert_eq!(register.get_float("c"), None);
    assert_eq!(register.get_int("c"), Some(&3));
}

#[test]
fn mutable_getter_creates_missing_key() {
    let mut register = ObjectRegister::new();
    assert_eq!(register.get_float_mut("new_key"), Some(&mut 0.0f64.to_bits()));
    assert_eq!(register.get_float("new_key"), Some(&0.0f64.to_bits()));
    assert_eq!(register.get_description("new_key").map(|d| d.as_str()), Some(AUTO_DESCRIPTION));
    assert_eq!(register.get_display_name("new_key"), None);
    assert_eq!(register.get_int_mut("fresh_int"), Some(&mut 0));
    assert_eq!(register.get_text_mut("fresh_text"), Some(&mut String::new()));
}

#[test]
fn mutable_getter_of_another_type_creates_nothing_new() {
    let mut register = ObjectRegister::new();
    register.add_property("f", Float(2.5f64.to_bits()), "a float");
    assert!(register.get_int_mut("f").is_none());
    assert_eq!(register.get_float("f"), Some(&2.5f64.to_bits()));
    assert_eq!(register.get_description("f"), Some(&"a float".to_string()));
}

#[test]
fn add_overwrites_existing_entry() {
    let mut register = ObjectRegister::new();
    register.add_constant("k", Integer(1), "first");
    register.set_display_name("k", "Key");
    register.add_property("k", ObjectPropertyValue::text("now text"), "second");
    assert_eq!(register.get_int("k"), None);
    assert_eq!(register.get_text("k"), Some(&"now text".to_string()));
    assert_eq!(register.get_description("k"), Some(&"second".to_string()));
    assert_eq!(register.get_display_name("k"), None);
    register.get_text_mut("k").map(|t| t.push_str("!"));
    assert_eq!(register.get_text("k"), Some(&"now text!".to_string()));
}

#[test]
fn setters_on_missing_key_do_nothing() {
    let mut register = ObjectRegister::new();
    register.set_description("absent", "d");
    register.set_display_name("absent", "n");
    assert_eq!(register.get_description("absent"), None);
    assert_eq!(register.get_display_name("absent"), None);
    assert_eq!(register.get_int("absent"), None);
}

#[test]
fn text_constructor_holds_text() {
    let mut register = ObjectRegister::new();
    register.add_constant("name", ObjectPropertyValue::text("Sol"), "");
    assert_eq!(register.get_text("name"), Some(&"Sol".to_string()));
    assert!(register.get_text_mut("name").is_none());
    assert!(matches!(Text("a".to_string()), Text(_)));
}

#[test]
fn entries_can_be_listed() {
    let mut register = ObjectRegister::new();
    register.add_property("b", Integer(2), "two");
    register.add_constant("a", Float(1.5f64.to_bits()), "one and a half");
    register.add_property("b", Integer(3), "three");
    register.set_display_name("a", "Alpha");
    let mut keys: Vec<String> = register.keys().clone();
    keys.sort();
    assert_eq!(keys, vec!["a".to_string(), "b".to_string()]);
    let a = register.get("a").unwrap();
    assert_eq!(a.value(), &Float(1.5f64.to_bits()));
    assert_eq!(a.description(), "one and a half");
    assert!(!a.is_mutable());
    assert_eq!(a.display_name(), Some(&"Alpha".to_string()));
    let b = register.get("b").unwrap();
    assert_eq!(b.value(), &Integer(3));
    assert!(b.is_mutable());
    assert_eq!(b.display_name(), None);
    assert!(register.get("c").is_none());
}
