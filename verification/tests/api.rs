use hetu::cloudsrv::api::{route, Surface};

#[test]
fn json_accept_reaches_http_surface() {
    assert_eq!(route(Some("application/json".as_bytes())), Surface::Http);
}

#[test]
fn missing_accept_reaches_rpc_surface() {
    assert_eq!(route(None), Surface::Rpc);
}

#[test]
fn json_oriented_accept_reaches_http_surface() {
    for value in [
        "application/json",
        "application/json; charset=utf-8",
        "application/json;charset=utf-8",
        "application/json;",
        " application/json ",
        "\tapplication/json\t; q=0.9",
        "Application/JSON",
        "APPLICATION/JSON;q=1",
        "text/html, application/json",
        "text/html;q=0.8,application/json;q=0.9, */*",
        "application/json,application/grpc",
        ",application/json",
        "application/grpc,, application/json ,",
    ] {
        assert_eq!(route(Some(value.as_bytes())), Surface::Http, "{:?}", value);
    }
}

#[test]
fn other_accept_reaches_rpc_surface() {
    for value in [
        "application/grpc",
        "",
        " ",
        ";",
        ",",
        "application/jso",
        "application/jsonx",
        "application/json+x",
        "xapplication/json",
        "application /json",
        "application/json charset=utf-8",
        "application/json\n",
        "text/html",
        "text/html; note=application/json",
        "text/html; a=b; application/json",
        "*/*",
        "application/*",
        "application/json-seq, text/json",
    ] {
        assert_eq!(route(Some(value.as_bytes())), Surface::Rpc, "{:?}", value);
    }
    assert_eq!(route(Some(&[0xff, 0xfe])), Surface::Rpc);
}

#[test]
fn requests_on_one_connection_are_routed_one_by_one() {
    let connection: Vec<Option<&[u8]>> = vec![
        Some(b"application/json"),
        Some(b"application/grpc"),
        None,
        Some(b"application/json; charset=utf-8"),
    ];
    let surfaces: Vec<Surface> = connection.iter().map(|accept| route(*accept)).collect();
    assert_eq!(
        surfaces,
        vec![Surface::Http, Surface::Rpc, Surface::Rpc, Surface::Http]
    );
}
