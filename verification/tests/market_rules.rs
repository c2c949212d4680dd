use zcode_pet::market::{
    connection_result, market_probe_url, pet_detail_url, resolve_proxy_url, search_query_pairs,
    search_request_url, search_url, search_url_from, ProbeOutcome, ProxyConfig, PETSHARE_BASE,
    PROXY_ENV_VARS,
};

fn pairs(v: &[(&str, &str)]) -> Vec<(String, String)> {
    v.iter().map(|(k, x)| (k.to_string(), x.to_string())).collect()
}

#[test]
fn urls_point_at_the_marketplace() {
    assert_eq!(PETSHARE_BASE, "https://codex-pets.net");
    assert_eq!(search_url(), "https://codex-pets.net/api/pets");
    assert_eq!(pet_detail_url("jige-kunkun"), "https://codex-pets.net/api/pets/jige-kunkun");
    assert_eq!(pet_detail_url("../admin"), "https://codex-pets.net/api/pets/___admin");
    assert_eq!(market_probe_url(), "https://codex-pets.net/api/pets?pageSize=1");
}

#[test]
fn search_sends_only_given_filters_trimmed() {
    let r = search_query_pairs(
        &Some("  cat ".to_string()),
        &Some("   ".to_string()),
        &None,
        Some(2),
        Some(24),
    );
    assert_eq!(r, pairs(&[("q", "cat"), ("page", "2"), ("pageSize", "24")]));
    let all = search_query_pairs(
        &Some("a".to_string()),
        &Some("b".to_string()),
        &Some("popular".to_string()),
        None,
        None,
    );
    assert_eq!(all, pairs(&[("q", "a"), ("kind", "b"), ("sort", "popular")]));
    assert!(search_query_pairs(&None, &None, &None, None, None).is_empty());
}

#[test]
fn auto_mode_takes_the_first_set_variable() {
    assert_eq!(PROXY_ENV_VARS[0], "HTTPS_PROXY");
    assert_eq!(PROXY_ENV_VARS[5], "all_proxy");
    let config = ProxyConfig::default();
    assert_eq!(config.mode, "auto");
    let env = vec![
        None,
        Some("   ".to_string()),
        Some(" socks5://10.0.0.1:1080 ".to_string()),
        Some("http://later:1".to_string()),
        None,
        None,
    ];
    assert_eq!(
        resolve_proxy_url(&config, &env),
        Some("socks5://10.0.0.1:1080".to_string())
    );
}

#[test]
fn unknown_mode_behaves_like_auto_and_direct_ignores_env() {
    let env = vec![Some("http://p:1".to_string()), None, None, None, None, None];
    let odd = ProxyConfig {
        mode: "whatever".to_string(),
        custom_url: "http://ignored".to_string(),
    };
    assert_eq!(resolve_proxy_url(&odd, &env), Some("http://p:1".to_string()));
    let direct = ProxyConfig {
        mode: "direct".to_string(),
        custom_url: "http://ignored".to_string(),
    };
    assert_eq!(resolve_proxy_url(&direct, &env), None);
    let custom = ProxyConfig {
        mode: "custom".to_string(),
        custom_url: " http://mine:3 ".to_string(),
    };
    assert_eq!(resolve_proxy_url(&custom, &env), Some("http://mine:3".to_string()));
}

#[test]
fn connection_results() {
    let ok = connection_result(
        ProbeOutcome::Answered {
            success: true,
            status: "200 OK".to_string(),
            latency_ms: 12,
        },
        Some("http://p:1".to_string()),
    );
    assert!(ok.ok);
    assert_eq!(ok.latency_ms, Some(12));
    assert_eq!(ok.error, None);
    assert_eq!(ok.proxy_used.as_deref(), Some("http://p:1"));

    let bad = connection_result(
        ProbeOutcome::Answered {
            success: false,
            status: "502 Bad Gateway".to_string(),
            latency_ms: 40,
        },
        None,
    );
    assert!(!bad.ok);
    assert_eq!(bad.latency_ms, Some(40));
    assert_eq!(bad.error.as_deref(), Some("HTTP 502 Bad Gateway"));
    assert_eq!(bad.proxy_used, None);

    let failed = connection_result(
        ProbeOutcome::SendFailed {
            error: "timed out".to_string(),
            latency_ms: 20000,
        },
        None,
    );
    assert!(!failed.ok);
    assert_eq!(failed.latency_ms, Some(20000));
    assert_eq!(failed.error.as_deref(), Some("timed out"));

    let no_client = connection_result(
        ProbeOutcome::ClientFailed {
            error: "设置代理失败: bad".to_string(),
        },
        Some("bad".to_string()),
    );
    assert!(!no_client.ok);
    assert_eq!(no_client.latency_ms, None);
    assert_eq!(no_client.error.as_deref(), Some("设置代理失败: bad"));
}

#[test]
fn search_request_url_encodes_the_query() {
    assert_eq!(
        search_request_url(&Some(" cat & dog ".to_string()), &None, &None, Some(2), None),
        Ok("https://codex-pets.net/api/pets?q=cat+%26+dog&page=2".to_string())
    );
    assert_eq!(
        search_request_url(&None, &None, &None, None, None),
        Ok("https://codex-pets.net/api/pets?".to_string())
    );
    assert_eq!(
        search_url_from(Err("relative URL without a base".to_string())),
        Err("解析 URL 失败: relative URL without a base".to_string())
    );
    assert_eq!(search_url_from(Ok("u".to_string())), Ok("u".to_string()));
}
