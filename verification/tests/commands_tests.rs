use launcher_core::commands::backend_url;
use launcher_core::commands::greet;

#[test]
fn greeting_embeds_the_name() {
    assert_eq!(
        greet("World").as_str(),
        "Hello, World! You've been greeted from Rust!"
    );
    assert_eq!(greet("").as_str(), "Hello, ! You've been greeted from Rust!");
}

#[test]
fn backend_url_uses_loopback_and_port() {
    assert_eq!(backend_url(8085).as_str(), "http://127.0.0.1:8085");
    assert_eq!(backend_url(80).as_str(), "http://127.0.0.1:80");
    assert_eq!(backend_url(65535).as_str(), "http://127.0.0.1:65535");
}
