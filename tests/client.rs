use monitor_client::cleanup::BulkDelete;
use monitor_client::client::{Client, Method};
use monitor_client::reply::{classify_reply, decoded_reply, failure_text, status_failure};
use monitor_client::types::Deployment;

fn on(name: &str, server: &str) -> Deployment {
    Deployment::builder().name(name).server_id(server).build()
}

#[test]
fn parse_url_strips_one_trailing_slash() {
    assert_eq!(Client::parse_url("http://host/"), "http://host");
    assert_eq!(Client::parse_url("http://host"), "http://host");
    assert_eq!(Client::parse_url("http://host//"), "http://host/");
    assert_eq!(Client::parse_url(""), "");
}

#[test]
fn new_with_token_normalizes_the_url() {
    let c = Client::new_with_token("http://host:9000/", "tok");
    assert_eq!(c.url(), "http://host:9000");
    assert_eq!(c.token(), "tok");
}

#[test]
fn requests_carry_path_and_bearer_token() {
    let c = Client::new_with_token("http://host/", "tok");
    let r = c.deploy_request("abc");
    assert_eq!(r.method, Method::Get);
    assert_eq!(r.url, "http://host/api/deployment/abc/deploy");
    assert_eq!(r.authorization.as_deref(), Some("Bearer tok"));
    assert!(r.json_body.is_none());

    let r = c.get_deployment_request("abc");
    assert_eq!(r.method, Method::Get);
    assert_eq!(r.url, "http://host/api/deployment/abc");

    let r = c.delete_deployment_request("abc");
    assert_eq!(r.method, Method::Delete);
    assert_eq!(r.url, "http://host/api/deployment/abc/delete");

    let r = c.get_deployments_request();
    assert_eq!(r.method, Method::Get);
    assert_eq!(r.url, "http://host/api/deployments");
}

#[test]
fn create_request_posts_the_wrapped_deployment() {
    let c = Client::new_with_token("http://host", "tok");
    let r = c.create_deployment_request(on("web", "s1"));
    assert_eq!(r.method, Method::Post);
    assert_eq!(r.url, "http://host/api/deployment/create");
    assert_eq!(r.authorization.as_deref(), Some("Bearer tok"));
    assert_eq!(
        r.json_body.as_deref(),
        Some("{\"deployment\":{\"name\":\"web\",\"serverID\":\"s1\"}}")
    );
}

#[test]
fn login_request_posts_credentials_without_token() {
    let r = Client::login_request("http://host/", "me", "secret");
    assert_eq!(r.method, Method::Post);
    assert_eq!(r.url, "http://host/login/local");
    assert!(r.authorization.is_none());
    assert_eq!(
        r.json_body.as_deref(),
        Some("{\"username\":\"me\",\"password\":\"secret\"}")
    );
}

#[test]
fn status_200_gives_the_body() {
    let r = classify_reply(200, Ok("{\"name\":\"a\"}".to_string()));
    assert_eq!(r, Ok("{\"name\":\"a\"}".to_string()));
}

#[test]
fn status_200_with_decoded_value_is_ok() {
    let d = on("web", "s1");
    let r = decoded_reply(200, Ok(d)).expect("decoded");
    assert_eq!(r.name, "web");
    assert_eq!(r.server_id, "s1");
}

#[test]
fn status_404_reports_code_and_body() {
    let r = classify_reply(404, Ok("not found".to_string()));
    let e = r.expect_err("an error");
    assert!(e.contains("404"));
    assert!(e.contains("not found"));
    assert_eq!(e, "404 Not Found: not found");
}

#[test]
fn unreadable_body_reports_status_and_error() {
    let e = classify_reply(200, Err("body error".to_string())).expect_err("an error");
    assert_eq!(e, "200 OK: body error");
    let e = classify_reply(500, Err("eof".to_string())).expect_err("an error");
    assert_eq!(e, "500 Internal Server Error: eof");
}

#[test]
fn decode_failure_reports_status_and_error() {
    let r: Result<Deployment, String> = decoded_reply(200, Err("missing field".to_string()));
    assert_eq!(r.expect_err("an error"), "200 OK: missing field");
}

#[test]
fn failure_texts_join_status_and_detail() {
    assert_eq!(failure_text("418 I'm a teapot", "short"), "418 I'm a teapot: short");
    assert_eq!(status_failure(503, "down"), "503 Service Unavailable: down");
    assert_eq!(status_failure(599, "x"), "599 <unknown status code>: x");
}

fn three_entries() -> Vec<(String, Deployment)> {
    vec![
        ("id1".to_string(), on("a", "target")),
        ("id2".to_string(), on("b", "other")),
        ("id3".to_string(), on("c", "target")),
    ]
}

#[test]
fn bulk_delete_deletes_only_matching_entries() {
    let mut job = BulkDelete::new("target", three_entries());
    let mut deleted_ids = Vec::new();
    let mut callbacks = Vec::new();
    while let Some(id) = job.next_delete() {
        let id = id.to_string();
        deleted_ids.push(id.clone());
        if let Some(record) = job.record(Ok(format!("deleted {id}"))) {
            callbacks.push(record.name);
        }
    }
    assert_eq!(deleted_ids, vec!["id1".to_string(), "id3".to_string()]);
    assert_eq!(callbacks, vec!["a".to_string(), "c".to_string()]);
    assert_eq!(job.outcome(), Ok(()));
}

#[test]
fn bulk_delete_stops_at_the_first_failure() {
    let mut job = BulkDelete::new("target", three_entries());
    let mut attempts = 0;
    let mut callbacks = 0;
    while let Some(_) = job.next_delete() {
        attempts += 1;
        let reply = if attempts == 2 {
            Err("500 Internal Server Error: boom".to_string())
        } else {
            Ok("ok".to_string())
        };
        if job.record(reply).is_some() {
            callbacks += 1;
        }
    }
    assert_eq!(attempts, 2);
    assert_eq!(callbacks, 1);
    assert_eq!(job.outcome(), Err("500 Internal Server Error: boom".to_string()));
}

#[test]
fn bulk_delete_with_no_match_does_nothing() {
    let job = BulkDelete::new("nowhere", three_entries());
    assert!(job.next_delete().is_none());
    assert_eq!(job.outcome(), Ok(()));
}

#[test]
fn bulk_delete_stops_after_failure_with_entries_left() {
    let mut entries = three_entries();
    entries.push(("id4".to_string(), on("d", "target")));
    let mut job = BulkDelete::new("target", entries);
    assert_eq!(job.next_delete(), Some("id1"));
    assert!(job.record(Err("404 Not Found: gone".to_string())).is_none());
    assert!(job.next_delete().is_none());
    assert_eq!(job.outcome(), Err("404 Not Found: gone".to_string()));
}
