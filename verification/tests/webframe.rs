use pyorion::webframe::{script_for, socket_init_script, socket_url};

#[test]
fn the_socket_address_names_host_and_port() {
    assert_eq!(socket_url("127.0.0.1", 8080), "ws://127.0.0.1:8080/ws");
    assert_eq!(socket_url("localhost", 0), "ws://localhost:0/ws");
    assert_eq!(socket_url("h", 65535), "ws://h:65535/ws");
}

#[test]
fn the_script_sets_the_address_as_a_json_string() {
    assert_eq!(
        socket_init_script("127.0.0.1", 9000),
        "window.socket_url = \"ws://127.0.0.1:9000/ws\";"
    );
    assert_eq!(socket_init_script("a\"b", 1), "window.socket_url = \"ws://a\\\"b:1/ws\";");
    assert_eq!(script_for("\"x\""), "window.socket_url = \"x\";");
}
