use covey::naming::{command_method_name, field_name, snake_to_upper_camel};

#[test]
fn upper_camel_names() {
    assert_eq!(snake_to_upper_camel("config"), "Config");
    assert_eq!(snake_to_upper_camel("thing_with_dash"), "ThingWithDash");
    assert_eq!(snake_to_upper_camel("urls_value"), "UrlsValue");
    assert_eq!(snake_to_upper_camel("r#type"), "Type");
    assert_eq!(snake_to_upper_camel("__a__b_"), "AB");
    assert_eq!(snake_to_upper_camel(""), "");
    assert_eq!(snake_to_upper_camel("x1_2y"), "X12y");
}

#[test]
fn upper_camel_uses_unicode_upper_case() {
    assert_eq!(snake_to_upper_camel("élan_ßig"), "ÉlanSSig");
}

#[test]
fn field_and_method_names() {
    assert_eq!(field_name("extra-field"), "extra_field");
    assert_eq!(field_name("thing-with-dash"), "thing_with_dash");
    assert_eq!(field_name("urls"), "urls");
    assert_eq!(command_method_name("alt-activate"), "on_alt_activate");
    assert_eq!(command_method_name("activate"), "on_activate");
}
