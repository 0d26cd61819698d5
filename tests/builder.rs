use monitor_client::helpers::enum_as_string;
use monitor_client::types::{Deployment, DeploymentBuilder, LoginCredentials, RestartMode};

#[test]
fn restart_modes_have_their_wire_strings() {
    assert_eq!(enum_as_string(&RestartMode::NoRestart), "no");
    assert_eq!(enum_as_string(&RestartMode::UnlessStopped), "unless-stopped");
    assert_eq!(enum_as_string(&RestartMode::OnFailure), "on-failure");
    assert_eq!(enum_as_string(&RestartMode::Always), "always");
    assert_eq!(RestartMode::OnFailure.as_wire(), "on-failure");
}

#[test]
fn scalar_setters_commute() {
    let a = Deployment::builder().name("a").server_id("b").build();
    let b = Deployment::builder().server_id("b").name("a").build();
    assert_eq!(a.name, b.name);
    assert_eq!(a.server_id, b.server_id);
    assert_eq!(a.name, "a");
    assert_eq!(a.server_id, "b");
    assert_eq!(a.to_json(), b.to_json());
}

#[test]
fn setting_a_field_twice_keeps_the_last() {
    let d = DeploymentBuilder::new().name("first").name("second").build();
    assert_eq!(d.name, "second");
}

#[test]
fn ports_accumulate_in_call_order() {
    let d = Deployment::builder()
        .add_port("8080", "80")
        .add_port("8081", "81")
        .build();
    let ports = d.ports.expect("ports set");
    assert_eq!(ports.len(), 2);
    assert_eq!(ports[0].local, "8080");
    assert_eq!(ports[0].container, "80");
    assert_eq!(ports[1].local, "8081");
    assert_eq!(ports[1].container, "81");
}

#[test]
fn no_add_port_leaves_ports_absent() {
    let d = Deployment::builder().name("a").server_id("b").build();
    assert!(d.ports.is_none());
    assert!(d.volumes.is_none());
    assert!(d.environment.is_none());
    assert!(d.id.is_none());
}

#[test]
fn volumes_and_environment_accumulate() {
    let d = Deployment::builder()
        .add_volume("/data", "/var/data")
        .add_environment("A", "1")
        .add_environment("B", "2")
        .build();
    let volumes = d.volumes.expect("volumes set");
    assert_eq!(volumes.len(), 1);
    assert_eq!(volumes[0].local, "/data");
    assert_eq!(volumes[0].container, "/var/data");
    let env = d.environment.expect("environment set");
    assert_eq!(env.len(), 2);
    assert_eq!(env[0].variable, "A");
    assert_eq!(env[1].value, "2");
}

#[test]
fn other_setters_store_their_values() {
    let d = Deployment::builder()
        .build_id(Some("build1".to_string()))
        .image(Some("nginx:latest".to_string()))
        .docker_account(None)
        .network("bridge")
        .restart(RestartMode::UnlessStopped)
        .build();
    assert_eq!(d.build_id.as_deref(), Some("build1"));
    assert_eq!(d.image.as_deref(), Some("nginx:latest"));
    assert!(d.docker_account.is_none());
    assert_eq!(d.network.as_deref(), Some("bridge"));
    assert_eq!(d.restart.as_deref(), Some("unless-stopped"));
}

#[test]
fn credentials_serialize_as_an_object() {
    let c = LoginCredentials::new("user", "p\"w");
    assert_eq!(c.to_json(), "{\"username\":\"user\",\"password\":\"p\\\"w\"}");
}

#[test]
fn default_deployment_is_blank() {
    let d = Deployment::default();
    assert_eq!(d.name, "");
    assert_eq!(d.server_id, "");
    assert!(d.restart.is_none());
    let b = DeploymentBuilder::default().build();
    assert_eq!(b.to_json(), "{\"name\":\"\",\"serverID\":\"\"}");
}
