use zcode_pet::catalog::BUILTIN_PET_IDS;
use zcode_pet::image::{detect_image_ext, generate_uploaded_id};
use zcode_pet::market::{resolve_proxy_url, ProxyConfig, DEFAULT_PROXY_URL};
use zcode_pet::text::urlencoding_path_segment;

/// The values of the six proxy variables when none of them is set.
fn no_proxy_env() -> Vec<Option<String>> {
    vec![None, None, None, None, None, None]
}

#[test]
fn path_segment_sanitizes_special_chars() {
    assert_eq!(urlencoding_path_segment("jige-kunkun"), "jige-kunkun");
    assert_eq!(urlencoding_path_segment("../x"), "___x");
}

#[test]
fn proxy_resolve_direct_returns_none() {
    let config = ProxyConfig {
        mode: "direct".to_string(),
        custom_url: String::new(),
    };
    assert_eq!(resolve_proxy_url(&config, &no_proxy_env()), None);
}

#[test]
fn proxy_resolve_custom_returns_url() {
    let config = ProxyConfig {
        mode: "custom".to_string(),
        custom_url: "http://192.168.1.1:8080".to_string(),
    };
    assert_eq!(
        resolve_proxy_url(&config, &no_proxy_env()),
        Some("http://192.168.1.1:8080".to_string())
    );
}

#[test]
fn proxy_resolve_custom_empty_returns_none() {
    let config = ProxyConfig {
        mode: "custom".to_string(),
        custom_url: "  ".to_string(),
    };
    assert_eq!(resolve_proxy_url(&config, &no_proxy_env()), None);
}

#[test]
fn proxy_resolve_auto_fallback_to_default() {
    // With none of the proxy variables set, auto mode falls back to Clash's 7890.
    let config = ProxyConfig {
        mode: "auto".to_string(),
        custom_url: String::new(),
    };
    assert_eq!(
        resolve_proxy_url(&config, &no_proxy_env()),
        Some(DEFAULT_PROXY_URL.to_string())
    );
}

#[test]
fn delete_rejects_builtin_id() {
    for id in &BUILTIN_PET_IDS {
        assert!(BUILTIN_PET_IDS.contains(id));
    }
}

#[test]
fn detect_png_magic_bytes() {
    let png = b"\x89PNG\r\n\x1a\n\x00\x00\x00\x00IHDR";
    assert_eq!(detect_image_ext(png), Some("png"));
}

#[test]
fn detect_webp_magic_bytes() {
    let mut webp = b"RIFF\x00\x00\x00\x00WEBP".to_vec();
    webp.extend_from_slice(&[0u8; 10]);
    assert_eq!(detect_image_ext(&webp), Some("webp"));
}

#[test]
fn detect_unknown_format_returns_none() {
    let jpeg = b"\xff\xd8\xff\xe0\x00\x10JFIF";
    assert_eq!(detect_image_ext(jpeg), None);
    let random = b"hello world this is not an image";
    assert_eq!(detect_image_ext(random), None);
}

#[test]
fn uploaded_id_format_is_valid() {
    let id = generate_uploaded_id();
    assert!(id.starts_with("uploaded-"));
    assert!(id
        .chars()
        .all(|c| c.is_ascii_lowercase() || c.is_ascii_digit() || c == '-'));
}
