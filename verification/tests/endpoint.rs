use kindlebridge::endpoint::{
    filesystem_endpoint, namespaced_endpoint, sanitize_endpoint_component,
};

#[test]
fn endpoint_component_keeps_only_portable_characters() {
    assert_eq!(sanitize_endpoint_component("Jane.Doe + 开发"), "JaneDoe");
    assert_eq!(sanitize_endpoint_component("user-name_2"), "user-name_2");
    assert_eq!(sanitize_endpoint_component("..."), "user");
}

#[test]
fn endpoint_component_is_bounded() {
    assert_eq!(
        sanitize_endpoint_component(&"a".repeat(100)),
        "a".repeat(64)
    );
}

#[test]
fn endpoint_forms_preserve_the_existing_contract() {
    assert_eq!(namespaced_endpoint("Jane Doe"), "kindlebridge-JaneDoe");
    assert_eq!(
        filesystem_endpoint("/run/user/1000", "jane", '/'),
        "/run/user/1000/kindlebridge-jane.sock"
    );
}

#[test]
fn portable_characters_behind_others_still_count() {
    let name = format!("{}{}", "é".repeat(200), "b".repeat(70));
    assert_eq!(sanitize_endpoint_component(&name), "b".repeat(64));
}
