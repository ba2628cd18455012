use sonar::config::ServerConfig;
use sonar::server::{AddressFamily, Response, Route, SonarServer};

fn server() -> SonarServer {
    let mut config = ServerConfig::new("127.0.0.1", 8080);
    config.health_endpoint("/up").prometheus_endpoint("/prom");
    SonarServer::new(config)
}

#[test]
fn a_server_holds_its_configuration() {
    let config = ServerConfig::new("127.0.0.1", 8080);
    assert_eq!(SonarServer::new(config.clone()).config, config);
}

#[test]
fn an_address_with_a_dot_is_taken_for_v4() {
    assert_eq!(server().address_family(), AddressFamily::V4);
    assert_eq!(SonarServer::new(ServerConfig::new("::1", 1)).address_family(), AddressFamily::V6);
    assert_eq!(
        SonarServer::new(ServerConfig::new("0.0.0.0", 1)).address_family(),
        AddressFamily::V4
    );
    assert_eq!(SonarServer::new(ServerConfig::new("", 1)).address_family(), AddressFamily::V6);
}

#[test]
fn paths_are_matched_exactly() {
    let s = server();
    assert_eq!(s.route("/up"), Route::Health);
    assert_eq!(s.route("/prom"), Route::Metrics);
    assert_eq!(s.route("/up/"), Route::NotFound);
    assert_eq!(s.route("/UP"), Route::NotFound);
    assert_eq!(s.route("/health"), Route::NotFound);
    assert_eq!(s.route("/metrics"), Route::NotFound);
    assert_eq!(s.route("/"), Route::NotFound);
    assert_eq!(s.route(""), Route::NotFound);
}

#[test]
fn the_usual_paths_where_none_is_configured() {
    let s = SonarServer::new(ServerConfig::new("0.0.0.0", 8080));
    assert_eq!(s.route("/health"), Route::Health);
    assert_eq!(s.route("/metrics"), Route::Metrics);
    assert_eq!(s.route("/up"), Route::NotFound);
}

#[test]
fn the_health_endpoint_comes_first() {
    let mut config = ServerConfig::new("0.0.0.0", 8080);
    config.health_endpoint("/x").prometheus_endpoint("/x");
    assert_eq!(SonarServer::new(config).route("/x"), Route::Health);
}

#[test]
fn health_is_200_and_empty() {
    assert_eq!(
        server().respond("/up", String::from("a_success 1\n")),
        Response { status: 200, content_type: None, body: String::new() }
    );
}

#[test]
fn metrics_is_200_with_the_snapshot() {
    assert_eq!(
        server().respond("/prom", String::from("a_success 1\n")),
        Response {
            status: 200,
            content_type: Some(String::from("text/plain; version=0.0.4")),
            body: String::from("a_success 1\n"),
        }
    );
}

#[test]
fn anything_else_is_404() {
    assert_eq!(
        server().respond("/nothing", String::from("a_success 1\n")),
        Response { status: 404, content_type: None, body: String::new() }
    );
}
