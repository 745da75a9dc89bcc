//! Static file cache and protocol configuration tests.

use pori::protocol_config::ProtocolConfig;
use pori::static_files::{create_default_static_files, generate_etag, StaticFileHandler};

#[test]
fn test_static_file_handler() {
    let handler = StaticFileHandler::new();

    assert_eq!(
        handler.get_file("/test.html").is_some(),
        handler.get_file("test.html").is_some()
    );
}

#[test]
fn test_default_static_files() {
    let files = create_default_static_files();

    assert_eq!(files.len(), 1);
    assert_eq!(files[0].0, "index.html");

    let index = &files[0].1;
    assert_eq!(index.mime_type, "text/html");
    assert!(!index.content.is_empty());
}

#[test]
fn test_index_served_for_root_paths() {
    let handler = StaticFileHandler::new();
    assert!(handler.get_file("").is_some());
    assert!(handler.get_file("/").is_some());
    assert!(handler.get_file("index.html").is_some());
    assert!(handler.get_file("//index.html").is_some());
    assert!(handler.get_file("missing.css").is_none());
    assert!(handler.is_static_file("/index.html"));
    assert_eq!(handler.list_files(), vec!["index.html".to_string()]);
    assert_eq!(handler.get_stats().total_files, 1);
}

#[test]
fn test_etag_is_stable_and_content_sensitive() {
    let a = generate_etag(&b"hello".to_vec());
    let b = generate_etag(&b"hello".to_vec());
    let c = generate_etag(&b"hello!".to_vec());
    assert_eq!(a, b);
    assert_ne!(a, c);
    // FNV-1a of an empty input, in hex.
    assert_eq!(generate_etag(&Vec::new()), b"cbf29ce484222325".to_vec());
}

#[test]
fn test_protocol_config_default() {
    let config = ProtocolConfig::default();
    assert_eq!(config.version, "1.0.0");
    assert!(config.compression.enabled);
    assert_eq!(config.limits.max_message_size, 16 * 1024 * 1024);
}
