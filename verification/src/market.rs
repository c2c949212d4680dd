//! The marketplace at codex-pets.net: request URLs and query parameters, the
//! proxy the requests go through, and the outcome of a connection test.
use vstd::prelude::*;

use crate::text::{
    decimal_string, digits, lemma_trim_idempotent, owned, sanitize_segment,
    text_eq, trim, trim_seq, urlencoding_path_segment,
};

verus! {

// ---------------------------------------------------------------------------
// URLs
// ---------------------------------------------------------------------------

/// The marketplace's base URL.
pub const PETSHARE_BASE: &'static str = "https://codex-pets.net";

/// The marketplace's base URL.
pub open spec fn petshare_base() -> Seq<char> {
    "https://codex-pets.net"@
}

/// The URL of the marketplace's pet search.
pub fn search_url() -> (r: String)
    ensures
        r@ == petshare_base() + "/api/pets"@,
{
    proof {
        reveal_strlit("https://codex-pets.net");
        reveal_strlit("/api/pets");
        reveal_strlit("https://codex-pets.net/api/pets");
    }
    owned("https://codex-pets.net/api/pets")
}

/// The URL of the details of the pet `pet_id`; the id is sanitised so that
/// it stays a single path segment.
pub fn pet_detail_url(pet_id: &str) -> (r: String)
    ensures
        r@ == petshare_base() + "/api/pets/"@ + sanitize_segment(pet_id@),
{
    let mut r = owned("https://codex-pets.net/api/pets/");
    let segment = urlencoding_path_segment(pet_id);
    r.append(segment.as_str());
    proof {
        reveal_strlit("https://codex-pets.net");
        reveal_strlit("/api/pets/");
        reveal_strlit("https://codex-pets.net/api/pets/");
    }
    r
}

/// The URL requested to test the connection to the marketplace: one result.
pub fn market_probe_url() -> (r: String)
    ensures
        r@ == petshare_base() + "/api/pets?pageSize=1"@,
{
    proof {
        reveal_strlit("https://codex-pets.net");
        reveal_strlit("/api/pets?pageSize=1");
        reveal_strlit("https://codex-pets.net/api/pets?pageSize=1");
    }
    owned("https://codex-pets.net/api/pets?pageSize=1")
}

// ---------------------------------------------------------------------------
// Search parameters
// ---------------------------------------------------------------------------

/// The query pair for a text filter: present only when the value is not
/// blank, and then trimmed.
pub open spec fn text_param(key: Seq<char>, value: Option<Seq<char>>) -> Seq<
    (Seq<char>, Seq<char>),
> {
    match value {
        Some(v) => if trim_seq(v).len() > 0 {
            seq![(key, trim_seq(v))]
        } else {
            Seq::empty()
        },
        None => Seq::empty(),
    }
}

/// The query pair for a number: present when given, in decimal.
pub open spec fn number_param(key: Seq<char>, value: Option<u32>) -> Seq<(Seq<char>, Seq<char>)> {
    match value {
        Some(n) => seq![(key, digits(n as nat, 10))],
        None => Seq::empty(),
    }
}

/// The query pairs of a marketplace search, in the order they are sent.
pub open spec fn search_params(
    q: Option<Seq<char>>,
    kind: Option<Seq<char>>,
    sort: Option<Seq<char>>,
    page: Option<u32>,
    page_size: Option<u32>,
) -> Seq<(Seq<char>, Seq<char>)> {
    text_param("q"@, q) + text_param("kind"@, kind) + text_param("sort"@, sort) + number_param(
        "page"@,
        page,
    ) + number_param("pageSize"@, page_size)
}

/// The texts of a list of query pairs.
pub open spec fn pairs_view(v: Seq<(String, String)>) -> Seq<(Seq<char>, Seq<char>)> {
    v.map_values(|p: (String, String)| (p.0@, p.1@))
}

fn opt_text_view(o: &Option<String>) -> (r: Option<&str>)
    ensures
        r is Some <==> o is Some,
        r is Some ==> r->0@ == o->0@,
{
    match o {
        Some(s) => Some(s.as_str()),
        None => None,
    }
}

fn push_text_param(pairs: &mut Vec<(String, String)>, key: &str, value: Option<&str>)
    ensures
        pairs_view(final(pairs)@) == pairs_view(old(pairs)@) + text_param(
            key@,
            match value {
                Some(v) => Some(v@),
                None => None,
            },
        ),
{
    let ghost before = pairs@;
    if let Some(v) = value {
        let t = trim(v);
        if !t.is_empty() {
            pairs.push((owned(key), owned(t)));
        }
    }
    assert(pairs_view(pairs@) =~= pairs_view(before) + text_param(
        key@,
        match value {
            Some(v) => Some(v@),
            None => None,
        },
    ));
}

fn push_number_param(pairs: &mut Vec<(String, String)>, key: &str, value: Option<u32>)
    ensures
        pairs_view(final(pairs)@) == pairs_view(old(pairs)@) + number_param(key@, value),
{
    let ghost before = pairs@;
    if let Some(n) = value {
        pairs.push((owned(key), decimal_string(n as u64)));
    }
    assert(pairs_view(pairs@) =~= pairs_view(before) + number_param(key@, value));
}

/// The query pairs of a marketplace search: `q`, `kind` and `sort` when not
/// blank (trimmed), then `page` and `pageSize` when given.
pub fn search_query_pairs(
    q: &Option<String>,
    kind: &Option<String>,
    sort: &Option<String>,
    page: Option<u32>,
    page_size: Option<u32>,
) -> (r: Vec<(String, String)>)
    ensures
        pairs_view(r@) == search_params(
            crate::pet::opt_view(*q),
            crate::pet::opt_view(*kind),
            crate::pet::opt_view(*sort),
            page,
            page_size,
        ),
{
    let mut pairs: Vec<(String, String)> = Vec::new();
    assert(pairs_view(pairs@) =~= Seq::empty());
    push_text_param(&mut pairs, "q", opt_text_view(q));
    push_text_param(&mut pairs, "kind", opt_text_view(kind));
    push_text_param(&mut pairs, "sort", opt_text_view(sort));
    push_number_param(&mut pairs, "page", page);
    push_number_param(&mut pairs, "pageSize", page_size);
    assert(pairs_view(pairs@) =~= search_params(
        crate::pet::opt_view(*q),
        crate::pet::opt_view(*kind),
        crate::pet::opt_view(*sort),
        page,
        page_size,
    ));
    pairs
}

/// The texts of a result holding strings.
pub open spec fn text_result(r: Result<String, String>) -> Result<Seq<char>, Seq<char>> {
    match r {
        Ok(u) => Ok(u@),
        Err(e) => Err(e@),
    }
}

/// What `reqwest::Url::parse_with_params(base, pairs)` gives, as text: the
/// URL with the pairs form-encoded into its query, or the parse error's message.
pub uninterp spec fn url_with_params(base: Seq<char>, pairs: Seq<(Seq<char>, Seq<char>)>) -> Result<
    Seq<char>,
    Seq<char>,
>;

/// `reqwest::Url::parse_with_params`: parses `base` and appends `pairs` to
/// its query (form-encoded, in order); the URL or the error as text. The
/// contract names the result, which depends on the arguments alone.
#[verifier::external_body]
fn parse_url_with_params(base: &str, pairs: &Vec<(String, String)>) -> (r: Result<String, String>)
    ensures
        text_result(r) == url_with_params(base@, pairs_view(pairs@)),
{
    match reqwest::Url::parse_with_params(base, pairs.iter()) {
        Ok(url) => Ok(url.to_string()),
        Err(e) => Err(e.to_string()),
    }
}

/// The request URL of a search from the outcome of building it: the URL,
/// or the reason it could not be built.
pub open spec fn search_url_outcome(built: Result<Seq<char>, Seq<char>>) -> Result<
    Seq<char>,
    Seq<char>,
> {
    match built {
        Ok(u) => Ok(u),
        Err(e) => Err("解析 URL 失败: "@ + e),
    }
}

/// The request URL of a search from the outcome of building it.
pub fn search_url_from(built: Result<String, String>) -> (r: Result<String, String>)
    ensures
        text_result(r) == search_url_outcome(text_result(built)),
{
    match built {
        Ok(u) => Ok(u),
        Err(e) => {
            let mut m = owned("解析 URL 失败: ");
            m.append(e.as_str());
            Err(m)
        },
    }
}

/// The full request URL of a marketplace search: the search URL with the
/// query pairs of `search_query_pairs`.
pub fn search_request_url(
    q: &Option<String>,
    kind: &Option<String>,
    sort: &Option<String>,
    page: Option<u32>,
    page_size: Option<u32>,
) -> (r: Result<String, String>)
    ensures
        text_result(r) == search_url_outcome(
            url_with_params(
                petshare_base() + "/api/pets"@,
                search_params(
                    crate::pet::opt_view(*q),
                    crate::pet::opt_view(*kind),
                    crate::pet::opt_view(*sort),
                    page,
                    page_size,
                ),
            ),
        ),
{
    let base = search_url();
    let pairs = search_query_pairs(q, kind, sort, page, page_size);
    search_url_from(parse_url_with_params(base.as_str(), &pairs))
}

// ---------------------------------------------------------------------------
// Proxy
// ---------------------------------------------------------------------------

/// How marketplace requests reach the network (`market-proxy.json`).
///
/// `mode` is `auto` (the proxy named by the environment, else a local Clash
/// proxy), `direct` (no proxy) or `custom` (`custom_url`).
#[derive(Clone, Debug)]
pub struct ProxyConfig {
    pub mode: String,
    pub custom_url: String,
}

impl Default for ProxyConfig {
    /// The `auto` mode with no custom URL.
    fn default() -> (r: Self)
        ensures
            r.mode@ == "auto"@,
            r.custom_url@ == Seq::<char>::empty(),
    {
        ProxyConfig { mode: owned("auto"), custom_url: String::new() }
    }
}

/// The environment variables that name a proxy, in the order they are read.
pub const PROXY_ENV_VARS: [&'static str; 6] = [
    "HTTPS_PROXY",
    "HTTP_PROXY",
    "ALL_PROXY",
    "https_proxy",
    "http_proxy",
    "all_proxy",
];

/// The local Clash proxy used in `auto` mode when the environment names none.
pub const DEFAULT_PROXY_URL: &'static str = "http://127.0.0.1:7890";

/// The local Clash proxy used in `auto` mode when the environment names none.
pub open spec fn default_proxy_url() -> Seq<char> {
    "http://127.0.0.1:7890"@
}

/// The first value among `env` that is not blank, trimmed.
pub open spec fn first_env_proxy(env: Seq<Option<Seq<char>>>) -> Option<Seq<char>>
    decreases env.len(),
{
    if env.len() == 0 {
        None
    } else if env[0] is Some && trim_seq(env[0]->0).len() > 0 {
        Some(trim_seq(env[0]->0))
    } else {
        first_env_proxy(env.drop_first())
    }
}

/// An environment value that names no proxy: unset, or only whitespace.
pub open spec fn is_blank_value(v: Option<Seq<char>>) -> bool {
    v is None || trim_seq(v->0).len() == 0
}

/// `k` is the position of the first value among `env` that names a proxy:
/// `env[k]` is not blank and every value before it is.
pub open spec fn is_first_proxy_value(env: Seq<Option<Seq<char>>>, k: int) -> bool {
    &&& 0 <= k < env.len()
    &&& !is_blank_value(env[k])
    &&& forall|j: int| 0 <= j < k ==> #[trigger] is_blank_value(env[j])
}

/// `first_env_proxy` reads the variables in order and takes the first that
/// is set and not blank, trimmed: when `env[k]` is that value the result is
/// its trimmed text, and the result is `None` exactly when every value is
/// unset or blank.
pub proof fn law_first_env_proxy_is_first_set_value(env: Seq<Option<Seq<char>>>)
    ensures
        forall|k: int| #[trigger]
            is_first_proxy_value(env, k) ==> first_env_proxy(env) == Some(trim_seq(env[k]->0)),
        first_env_proxy(env) is None <==> forall|j: int|
            0 <= j < env.len() ==> #[trigger] is_blank_value(env[j]),
        first_env_proxy(env) is Some ==> exists|k: int| #[trigger] is_first_proxy_value(env, k),
    decreases env.len(),
{
    if env.len() > 0 {
        let rest = env.drop_first();
        law_first_env_proxy_is_first_set_value(rest);
        assert forall|j: int| 1 <= j < env.len() implies env[j] == rest[j - 1] by {}
        if !is_blank_value(env[0]) {
            assert(is_first_proxy_value(env, 0));
            assert forall|k: int| #[trigger] is_first_proxy_value(env, k) implies k == 0 by {
                if k > 0 {
                    assert(is_blank_value(env[0]));
                }
            }
        } else {
            assert forall|k: int| #[trigger] is_first_proxy_value(env, k) implies first_env_proxy(
                env,
            ) == Some(trim_seq(env[k]->0)) by {
                assert(k > 0);
                assert forall|j: int| 0 <= j < k - 1 implies #[trigger] is_blank_value(rest[j]) by {
                    assert(is_blank_value(env[j + 1]));
                }
                assert(is_first_proxy_value(rest, k - 1));
            }
            if first_env_proxy(rest) is None {
                assert forall|j: int| 0 <= j < env.len() implies #[trigger] is_blank_value(
                    env[j],
                ) by {
                    if j > 0 {
                        assert(is_blank_value(rest[j - 1]));
                    }
                }
            } else {
                let k = choose|k: int| #[trigger] is_first_proxy_value(rest, k);
                assert forall|j: int| 0 <= j < k + 1 implies #[trigger] is_blank_value(env[j]) by {
                    if j > 0 {
                        assert(is_blank_value(rest[j - 1]));
                    }
                }
                assert(is_first_proxy_value(env, k + 1));
                assert(!is_blank_value(rest[k]));
            }
        }
    }
}

/// The proxy URL for mode `mode` and custom URL `custom_url`, where `env`
/// holds the values of `PROXY_ENV_VARS` in order (`None` for a variable that
/// is not set).
pub open spec fn resolved_proxy(
    mode: Seq<char>,
    custom_url: Seq<char>,
    env: Seq<Option<Seq<char>>>,
) -> Option<Seq<char>> {
    if mode == "direct"@ {
        None
    } else if mode == "custom"@ {
        if trim_seq(custom_url).len() == 0 {
            None
        } else {
            Some(trim_seq(custom_url))
        }
    } else {
        match first_env_proxy(env) {
            Some(u) => Some(u),
            None => Some(default_proxy_url()),
        }
    }
}

/// The texts of a list of optional strings.
pub open spec fn opt_texts_view(v: Seq<Option<String>>) -> Seq<Option<Seq<char>>> {
    v.map_values(|o: Option<String>| crate::pet::opt_view(o))
}

/// The proxy URL that marketplace requests use, or `None` for a direct
/// connection.
///
/// `direct` gives `None`; `custom` gives the trimmed custom URL, or `None`
/// when it is blank; `auto` and every other mode give the first non-blank
/// value of `PROXY_ENV_VARS` (trimmed), else `http://127.0.0.1:7890`.
/// `proxy_env[k]` is the value of `PROXY_ENV_VARS[k]`, `None` when unset.
pub fn resolve_proxy_url(config: &ProxyConfig, proxy_env: &Vec<Option<String>>) -> (r: Option<
    String,
>)
    ensures
        crate::pet::opt_view(r) == resolved_proxy(
            config.mode@,
            config.custom_url@,
            opt_texts_view(proxy_env@),
        ),
        config.mode@ != "direct"@ && config.mode@ != "custom"@ ==> forall|k: int| #[trigger]
            is_first_proxy_value(opt_texts_view(proxy_env@), k) ==> crate::pet::opt_view(r)
                == Some(trim_seq(proxy_env@[k]->0@)),
        config.mode@ != "direct"@ && config.mode@ != "custom"@ && (forall|j: int|
            0 <= j < proxy_env@.len() ==> #[trigger] is_blank_value(
                opt_texts_view(proxy_env@)[j],
            )) ==> crate::pet::opt_view(r) == Some(default_proxy_url()),
{
    proof {
        reveal_strlit("direct");
        reveal_strlit("custom");
        reveal_strlit("http://127.0.0.1:7890");
    }
    let mode = config.mode.as_str();
    if text_eq(mode, "direct") {
        return None;
    }
    if text_eq(mode, "custom") {
        let url = trim(config.custom_url.as_str());
        if url.is_empty() {
            return None;
        }
        return Some(owned(url));
    }
    let ghost env = opt_texts_view(proxy_env@);
    let n = proxy_env.len();
    let mut k: usize = 0;
    assert(env.skip(0) == env);
    while k < n
        invariant
            n == proxy_env@.len(),
            env == opt_texts_view(proxy_env@),
            k <= n,
            first_env_proxy(env) == first_env_proxy(env.skip(k as int)),
            forall|j: int| 0 <= j < k ==> #[trigger] is_blank_value(env[j]),
            config.mode@ != "direct"@,
            config.mode@ != "custom"@,
        decreases n - k,
    {
        assert(env.skip(k as int).drop_first() == env.skip(k + 1));
        assert(env.skip(k as int)[0] == crate::pet::opt_view(proxy_env@[k as int]));
        if let Some(val) = &proxy_env[k] {
            let t = trim(val.as_str());
            if !t.is_empty() {
                assert(env.skip(k as int).len() > 0);
                assert(env.skip(k as int)[0] == Some(val@));
                assert(first_env_proxy(env.skip(k as int)) == Some(t@));
                proof {
                    law_first_env_proxy_is_first_set_value(env);
                }
                return Some(owned(t));
            }
        }
        k = k + 1;
    }
    assert(env.skip(n as int).len() == 0);
    Some(owned(DEFAULT_PROXY_URL))
}

/// A proxy URL that is resolved is never blank and carries no surrounding
/// whitespace; `direct` never resolves to a proxy.
pub proof fn law_resolved_proxy_is_trimmed(
    mode: Seq<char>,
    custom_url: Seq<char>,
    env: Seq<Option<Seq<char>>>,
)
    ensures
        resolved_proxy(mode, custom_url, env) is Some ==> resolved_proxy(mode, custom_url, env)->0.len()
            > 0 && trim_seq(resolved_proxy(mode, custom_url, env)->0) == resolved_proxy(
            mode,
            custom_url,
            env,
        )->0,
        mode == "direct"@ ==> resolved_proxy(mode, custom_url, env) is None,
{
    reveal_strlit("http://127.0.0.1:7890");
    lemma_first_env_proxy_trimmed(env);
    lemma_trim_idempotent(custom_url);
    let d = default_proxy_url();
    assert(d.len() > 0 && !crate::text::is_white_space(d[0]) && !crate::text::is_white_space(
        d.last(),
    ));
    assert(trim_seq(d) == d);
}

proof fn lemma_first_env_proxy_trimmed(env: Seq<Option<Seq<char>>>)
    ensures
        first_env_proxy(env) is Some ==> first_env_proxy(env)->0.len() > 0 && trim_seq(
            first_env_proxy(env)->0,
        ) == first_env_proxy(env)->0,
    decreases env.len(),
{
    if env.len() > 0 {
        if env[0] is Some && trim_seq(env[0]->0).len() > 0 {
            lemma_trim_idempotent(env[0]->0);
        } else {
            lemma_first_env_proxy_trimmed(env.drop_first());
        }
    }
}

// ---------------------------------------------------------------------------
// Connection test
// ---------------------------------------------------------------------------

/// The outcome of a connection test, as shown beside the proxy settings.
#[derive(Clone, Debug)]
pub struct MarketConnectionResult {
    pub ok: bool,
    pub latency_ms: Option<u64>,
    pub error: Option<String>,
    pub proxy_used: Option<String>,
}

/// What happened when the marketplace was asked for one result.
#[derive(Clone, Debug)]
pub enum ProbeOutcome {
    /// No HTTP client could be built; the message says why.
    ClientFailed { error: String },
    /// The marketplace answered: whether the status was a success, the
    /// status as text, and the time taken.
    Answered { success: bool, status: String, latency_ms: u64 },
    /// The request failed after `latency_ms` milliseconds.
    SendFailed { error: String, latency_ms: u64 },
}

/// The result shown for a connection test that had `outcome`, through `proxy_used`.
pub open spec fn is_result_of(
    r: MarketConnectionResult,
    outcome: ProbeOutcome,
    proxy_used: Option<Seq<char>>,
) -> bool {
    &&& crate::pet::opt_view(r.proxy_used) == proxy_used
    &&& match outcome {
        ProbeOutcome::ClientFailed { error } => {
            &&& !r.ok
            &&& r.latency_ms is None
            &&& crate::pet::opt_view(r.error) == Some(error@)
        },
        ProbeOutcome::Answered { success, status, latency_ms } => {
            &&& r.ok == success
            &&& r.latency_ms == Some(latency_ms)
            &&& crate::pet::opt_view(r.error) == if success {
                None
            } else {
                Some("HTTP "@ + status@)
            }
        },
        ProbeOutcome::SendFailed { error, latency_ms } => {
            &&& !r.ok
            &&& r.latency_ms == Some(latency_ms)
            &&& crate::pet::opt_view(r.error) == Some(error@)
        },
    }
}

/// The result shown for a connection test: `ok` only when the marketplace
/// answered with a success status; an error `HTTP <status>` for any other
/// answer, or the failure's own message.
pub fn connection_result(outcome: ProbeOutcome, proxy_used: Option<String>) -> (r:
    MarketConnectionResult)
    ensures
        is_result_of(r, outcome, crate::pet::opt_view(proxy_used)),
{
    match outcome {
        ProbeOutcome::ClientFailed { error } => MarketConnectionResult {
            ok: false,
            latency_ms: None,
            error: Some(error),
            proxy_used,
        },
        ProbeOutcome::Answered { success, status, latency_ms } => {
            let error = if success {
                None
            } else {
                let mut e = owned("HTTP ");
                e.append(status.as_str());
                Some(e)
            };
            MarketConnectionResult { ok: success, latency_ms: Some(latency_ms), error, proxy_used }
        },
        ProbeOutcome::SendFailed { error, latency_ms } => MarketConnectionResult {
            ok: false,
            latency_ms: Some(latency_ms),
            error: Some(error),
            proxy_used,
        },
    }
}

} // verus!
