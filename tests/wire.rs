use monitor_client::types::{Deployment, RestartMode};

#[test]
fn required_fields_only_omit_every_optional_key() {
    let d = Deployment::builder().name("web").server_id("s1").build();
    let json = d.to_json();
    assert_eq!(json, "{\"name\":\"web\",\"serverID\":\"s1\"}");
    let value: serde_json::Value = serde_json::from_str(&json).expect("valid JSON");
    let object = value.as_object().expect("an object");
    assert_eq!(object.len(), 2);
    assert!(!json.contains("null"));
}

#[test]
fn strings_are_escaped() {
    let d = Deployment::builder().name("a\"b\\c\nd\u{1}").server_id("s").build();
    assert_eq!(
        d.to_json(),
        "{\"name\":\"a\\\"b\\\\c\\nd\\u0001\",\"serverID\":\"s\"}"
    );
    let value: serde_json::Value = serde_json::from_str(&d.to_json()).expect("valid JSON");
    assert_eq!(value["name"], "a\"b\\c\nd\u{1}");
}

#[test]
fn full_deployment_uses_wire_names_in_order() {
    let mut d = Deployment::builder()
        .name("web")
        .server_id("s1")
        .build_id(Some("b1".to_string()))
        .image(Some("img".to_string()))
        .add_port("8080", "80")
        .add_port("8081", "81")
        .add_volume("/a", "/b")
        .add_environment("K", "V")
        .network("host")
        .restart(RestartMode::Always)
        .docker_account(Some("acct".to_string()))
        .build();
    d.id = Some("65f0a1b2c3d4e5f601234567".to_string());
    d.container_user = Some("root".to_string());
    let expected = "{\"_id\":{\"$oid\":\"65f0a1b2c3d4e5f601234567\"},\
        \"name\":\"web\",\"serverID\":\"s1\",\"buildID\":\"b1\",\"image\":\"img\",\
        \"ports\":[{\"local\":\"8080\",\"container\":\"80\"},{\"local\":\"8081\",\"container\":\"81\"}],\
        \"volumes\":[{\"local\":\"/a\",\"container\":\"/b\"}],\
        \"environment\":[{\"variable\":\"K\",\"value\":\"V\"}],\
        \"network\":\"host\",\"restart\":\"always\",\"containerUser\":\"root\",\
        \"dockerAccount\":\"acct\"}";
    assert_eq!(d.to_json(), expected);
    let value: serde_json::Value = serde_json::from_str(expected).expect("valid JSON");
    assert_eq!(value["ports"][1]["container"], "81");
}

#[test]
fn create_body_wraps_the_deployment() {
    let d = Deployment::builder().name("n").server_id("s").build();
    let body = d.into_create_body();
    assert_eq!(
        body.to_json(),
        "{\"deployment\":{\"name\":\"n\",\"serverID\":\"s\"}}"
    );
}
