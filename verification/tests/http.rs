use tabby::http::{create_reqwest_client, is_localhost};

#[test]
fn local_endpoints() {
    assert!(is_localhost("http://localhost:8080/v1"));
    assert!(is_localhost("http://127.0.0.1:11434"));
    assert!(!is_localhost("https://localhost:8080"));
    assert!(!is_localhost("http://example.com"));
    assert!(!is_localhost(""));
}

#[test]
fn clients_are_built() {
    assert!(create_reqwest_client("http://localhost:8080").is_ok());
    assert!(create_reqwest_client("https://api.example.com").is_ok());
}
