use base64::Engine;
use ic_certification::{HashTree, LookupResult};
use ic_http_certification::cel::DefaultRequestCertification;
use ic_http_certification::{
    request_hash, response_hash, DefaultResponseCertification, HttpRequest, HttpResponse,
    StatusCode,
};
use sha2::{Digest, Sha256};
use static_backend::corpus::{Asset, SourceFile};
use static_backend::headers::get_asset_headers;
use static_backend::router::{FailureKind, Request, Response, RouterFailure};
use static_backend::rules::{AssetRule, Encoding, FallbackScope};
use static_backend::site::{
    plan_pass, serve_outcome, CertifyError, PassRouter, Phase, ServeError, Site,
    ENABLE_TEMPLATING, UPDATE_INTERVAL_SECS,
};

const CERTIFICATE: [u8; 3] = [1, 2, 3];

fn file(path: &str, contents: &[u8]) -> SourceFile {
    SourceFile { path: path.to_string(), contents: contents.to_vec() }
}

fn site_files() -> Vec<SourceFile> {
    vec![file("index.hbs", b"cycles: {{cycles}}"), file("404.html", b"<h1>gone</h1>")]
}

fn rendering(page: &[u8]) -> Vec<Option<Vec<u8>>> {
    vec![Some(page.to_vec()), None]
}

fn certified(page: &[u8]) -> (Site, [u8; 32]) {
    let mut site = Site::new();
    let digest = site.certify_all_assets(&site_files(), &rendering(page)).ok().unwrap();
    (site, digest)
}

fn get(url: &str) -> Request {
    Request { url: url.to_string(), headers: vec![] }
}

fn get_accepting(url: &str, encodings: &str) -> Request {
    Request {
        url: url.to_string(),
        headers: vec![("Accept-Encoding".to_string(), encodings.to_string())],
    }
}

fn header_of<'a>(response: &'a Response, name: &str) -> Option<&'a str> {
    response.headers.iter().find(|(n, _)| n.eq_ignore_ascii_case(name)).map(|(_, v)| v.as_str())
}

fn part(header: &str, name: &str) -> Vec<u8> {
    let start = header.find(&format!("{}=:", name)).unwrap() + name.len() + 2;
    let end = start + header[start..].find(':').unwrap();
    base64::engine::general_purpose::STANDARD.decode(&header[start..end]).unwrap()
}

/// Checks the witness of a response as a client does: the tree in the
/// certification header must hash to the published digest and must hold the
/// leaf that commits to this very request and response.
fn witness_proves(response: &Response, digest: [u8; 32]) -> bool {
    let header = header_of(response, "IC-Certificate").unwrap();
    let tree: HashTree = serde_cbor::from_slice(&part(header, "tree")).unwrap();
    let expr_path: Vec<String> = serde_cbor::from_slice(&part(header, "expr_path")).unwrap();
    let expression = header_of(response, "IC-CertificateExpression").unwrap();
    let expression_hash: [u8; 32] = Sha256::digest(expression.as_bytes()).into();
    let request = HttpRequest::get("/").build();
    let request_hash =
        request_hash(&request, &DefaultRequestCertification::new(vec![], vec![])).unwrap();
    let served = HttpResponse::builder()
        .with_status_code(StatusCode::from_u16(response.status_code).unwrap())
        .with_headers(response.headers.clone())
        .with_body(response.body.clone())
        .build();
    let response_hash = response_hash(
        &served,
        &DefaultResponseCertification::response_header_exclusions(vec![]),
        None,
    );
    let mut path: Vec<Vec<u8>> = expr_path.iter().map(|s| s.as_bytes().to_vec()).collect();
    path.push(expression_hash.to_vec());
    path.push(request_hash.to_vec());
    path.push(response_hash.to_vec());
    tree.digest() == digest && matches!(tree.lookup_path(&path), LookupResult::Found(_))
}

fn expr_path_of(response: &Response) -> Vec<String> {
    let header = header_of(response, "IC-Certificate").unwrap();
    serde_cbor::from_slice(&part(header, "expr_path")).unwrap()
}

#[test]
fn the_site_is_certified_every_two_minutes_with_templating() {
    assert_eq!(UPDATE_INTERVAL_SECS, 120);
    assert!(ENABLE_TEMPLATING);
}

#[test]
fn an_uninitialized_site_answers_no_request() {
    let site = Site::new();
    assert_eq!(site.phase(), Phase::Uninitialized);
    assert_eq!(site.root_digest(), None);
    assert_eq!(site.last_cycles_cost(), 0);
    assert_eq!(site.serve_asset(&CERTIFICATE, &get("/")).err(), Some(ServeError::NotCertified));
    assert_eq!(site.http_request(&CERTIFICATE, &get("/")).err(), Some(ServeError::NotCertified));
}

#[test]
fn a_pass_publishes_the_root_digest() {
    let (site, digest) = certified(b"cycles: 7");
    assert_eq!(site.phase(), Phase::Certified);
    assert_eq!(site.root_digest(), Some(digest));
    assert_ne!(digest, [0u8; 32]);
}

#[test]
fn the_index_page_is_served_with_its_rendering() {
    let (site, _) = certified(b"cycles: 7");
    let response = site.serve_asset(&CERTIFICATE, &get("/index.html")).ok().unwrap();
    assert_eq!(response.status_code, 200);
    assert_eq!(response.body, b"cycles: 7".to_vec());
    assert_eq!(header_of(&response, "content-type"), Some("text/html"));
    assert_eq!(header_of(&response, "content-length"), Some("9"));
    assert_eq!(header_of(&response, "cache-control"), Some("public, no-cache, no-store"));
}

#[test]
fn every_response_carries_the_security_headers() {
    let (site, _) = certified(b"cycles: 7");
    for url in ["/", "/index.html", "/404.html", "/nowhere"] {
        let response = site.serve_asset(&CERTIFICATE, &get(url)).ok().unwrap();
        for expected in get_asset_headers(vec![]) {
            assert!(response.headers.contains(&expected), "{} lacks {}", url, expected.0);
        }
    }
}

#[test]
fn the_certification_header_carries_the_data_certificate() {
    let (site, _) = certified(b"cycles: 7");
    let response = site.serve_asset(&CERTIFICATE, &get("/")).ok().unwrap();
    let header = header_of(&response, "IC-Certificate").unwrap();
    assert!(header.starts_with("certificate=:AQID:, tree=:"));
    assert!(header.ends_with(":, version=2"));
    assert_eq!(part(header, "certificate"), CERTIFICATE.to_vec());
    let other = site.serve_asset(&[9, 9], &get("/")).ok().unwrap();
    assert_eq!(part(header_of(&other, "IC-Certificate").unwrap(), "certificate"), vec![9, 9]);
    assert_eq!(other.body, response.body);
}

#[test]
fn the_witness_of_every_committed_path_proves_the_response() {
    let (site, digest) = certified(b"cycles: 7");
    for url in ["/", "/index.html", "/404.html"] {
        let response = site.serve_asset(&CERTIFICATE, &get(url)).ok().unwrap();
        assert!(witness_proves(&response, digest), "{}", url);
    }
}

#[test]
fn a_witness_does_not_prove_another_response() {
    let (site, digest) = certified(b"cycles: 7");
    let response = site.serve_asset(&CERTIFICATE, &get("/index.html")).ok().unwrap();
    let mut forged = Response {
        status_code: response.status_code,
        headers: response.headers.clone(),
        body: b"cycles: 8".to_vec(),
    };
    assert!(!witness_proves(&forged, digest));
    forged.body = response.body.clone();
    forged.status_code = 404;
    assert!(!witness_proves(&forged, digest));
    forged.status_code = 200;
    assert!(witness_proves(&forged, digest));
    assert!(!witness_proves(&forged, [7u8; 32]));
}

#[test]
fn a_path_outside_every_asset_gets_the_certified_not_found_page() {
    let (site, digest) = certified(b"cycles: 7");
    for url in ["/nowhere", "/a/b/c.txt", "/index.htm"] {
        let response = site.serve_asset(&CERTIFICATE, &get(url)).ok().unwrap();
        assert_eq!(response.status_code, 404);
        assert_eq!(response.body, b"<h1>gone</h1>".to_vec());
        assert!(witness_proves(&response, digest), "{}", url);
        assert_eq!(expr_path_of(&response), vec!["http_expr", "", "<*>"]);
    }
    let first = site.serve_asset(&CERTIFICATE, &get("/nowhere")).ok().unwrap();
    let second = site.serve_asset(&CERTIFICATE, &get("/nowhere")).ok().unwrap();
    assert_eq!(first.headers, second.headers);
    assert_eq!(first.body, second.body);
}

#[test]
fn a_path_outside_every_scope_is_not_found() {
    let rules = vec![AssetRule::File {
        path: "docs/404.html".to_string(),
        content_type: None,
        headers: vec![],
        fallback_for: vec![FallbackScope { scope: "/docs".to_string(), status_code: Some(404) }],
        aliased_by: vec![],
        encodings: vec![],
    }];
    let mut site = Site::new();
    site.certify(&rules, &vec![file("docs/404.html", b"no doc")], &vec![None], true).ok().unwrap();
    let inside = site.serve_asset(&CERTIFICATE, &get("/docs/missing")).ok().unwrap();
    assert_eq!(inside.body, b"no doc".to_vec());
    assert_eq!(site.serve_asset(&CERTIFICATE, &get("/other")).err(), Some(ServeError::NotFound));
    assert_eq!(site.serve_asset(&CERTIFICATE, &get("/")).err(), Some(ServeError::NotFound));
}

#[test]
fn an_alias_serves_the_body_of_its_canonical_path() {
    let (site, digest) = certified(b"cycles: 7");
    let canonical = site.serve_asset(&CERTIFICATE, &get("/index.html")).ok().unwrap();
    let alias = site.serve_asset(&CERTIFICATE, &get("/")).ok().unwrap();
    assert_eq!(alias.body, canonical.body);
    assert_eq!(alias.status_code, canonical.status_code);
    let plain = |r: &Response| -> Vec<(String, String)> {
        r.headers.iter().filter(|(n, _)| n != "IC-Certificate").cloned().collect()
    };
    assert_eq!(plain(&alias), plain(&canonical));
    assert_eq!(expr_path_of(&canonical), vec!["http_expr", "index.html", "<$>"]);
    assert_eq!(expr_path_of(&alias), vec!["http_expr", "", "<$>"]);
    assert!(witness_proves(&alias, digest));
    assert!(witness_proves(&canonical, digest));
}

fn fallback_rule(path: &str, scope: &str) -> AssetRule {
    AssetRule::File {
        path: path.to_string(),
        content_type: Some("text/html".to_string()),
        headers: vec![],
        fallback_for: vec![FallbackScope { scope: scope.to_string(), status_code: Some(404) }],
        aliased_by: vec![],
        encodings: vec![],
    }
}

#[test]
fn the_most_specific_fallback_scope_wins() {
    let rules = vec![fallback_rule("404.html", "/"), fallback_rule("docs/404.html", "/docs/")];
    let files = vec![file("404.html", b"root gone"), file("docs/404.html", b"doc gone")];
    let mut site = Site::new();
    let digest = site.certify(&rules, &files, &vec![None, None], true).ok().unwrap();
    let docs = site.serve_asset(&CERTIFICATE, &get("/docs/missing")).ok().unwrap();
    assert_eq!(docs.body, b"doc gone".to_vec());
    assert_eq!(docs.status_code, 404);
    assert_eq!(expr_path_of(&docs), vec!["http_expr", "docs", "", "<*>"]);
    assert!(witness_proves(&docs, digest));
    let deep = site.serve_asset(&CERTIFICATE, &get("/docs/a/b/missing")).ok().unwrap();
    assert_eq!(deep.body, b"doc gone".to_vec());
    let root = site.serve_asset(&CERTIFICATE, &get("/missing")).ok().unwrap();
    assert_eq!(root.body, b"root gone".to_vec());
    assert!(witness_proves(&root, digest));
}

#[test]
fn the_first_declared_scope_wins_a_tie() {
    for _ in 0..20 {
        let rules = vec![
            fallback_rule("first.html", "/"),
            fallback_rule("second.html", "/"),
            fallback_rule("third.html", "/"),
        ];
        let files = vec![
            file("third.html", b"third"),
            file("second.html", b"second"),
            file("first.html", b"first"),
        ];
        let mut site = Site::new();
        let digest = site.certify(&rules, &files, &vec![None, None, None], true).ok().unwrap();
        let response = site.serve_asset(&CERTIFICATE, &get("/missing")).ok().unwrap();
        assert_eq!(response.body, b"first".to_vec());
        assert!(witness_proves(&response, digest));
        let own = site.serve_asset(&CERTIFICATE, &get("/second.html")).ok().unwrap();
        assert_eq!(own.body, b"second".to_vec());
    }
}

#[test]
fn a_rule_whose_file_is_not_staged_wins_no_tie() {
    for _ in 0..10 {
        let rules = vec![fallback_rule("first.html", "/"), fallback_rule("second.html", "/")];
        let files = vec![file("second.html", b"second")];
        let mut site = Site::new();
        let digest = site.certify(&rules, &files, &vec![None], true).ok().unwrap();
        let response = site.serve_asset(&CERTIFICATE, &get("/missing")).ok().unwrap();
        assert_eq!(response.body, b"second".to_vec());
        assert_eq!(response.status_code, 404);
        assert!(witness_proves(&response, digest));
    }
}

#[test]
fn of_two_rules_for_one_file_the_first_is_live() {
    for _ in 0..10 {
        let rules = vec![
            fallback_rule("page.html", "/a"),
            fallback_rule("page.html", "/b"),
            fallback_rule("other.html", "/b"),
        ];
        let files = vec![file("other.html", b"other"), file("page.html", b"page")];
        let mut site = Site::new();
        site.certify(&rules, &files, &vec![None, None], true).ok().unwrap();
        let a = site.serve_asset(&CERTIFICATE, &get("/a/missing")).ok().unwrap();
        assert_eq!(a.body, b"page".to_vec());
        let b = site.serve_asset(&CERTIFICATE, &get("/b/missing")).ok().unwrap();
        assert_eq!(b.body, b"other".to_vec());
    }
}

fn encoded_site() -> Site {
    let rules = vec![AssetRule::File {
        path: "index.html".to_string(),
        content_type: Some("text/html".to_string()),
        headers: vec![],
        fallback_for: vec![],
        aliased_by: vec![],
        encodings: vec![Encoding::Brotli.default_config(), Encoding::Gzip.default_config()],
    }];
    let files = vec![file("index.html", b"plain page"), file("index.html.gz", b"gzipped page")];
    let mut site = Site::new();
    site.certify(&rules, &files, &vec![None, None], true).ok().unwrap();
    site
}

#[test]
fn gzip_is_served_where_the_asset_has_no_brotli_variant() {
    let site = encoded_site();
    let response =
        site.serve_asset(&CERTIFICATE, &get_accepting("/index.html", "br, gzip")).ok().unwrap();
    assert_eq!(response.body, b"gzipped page".to_vec());
    assert_eq!(header_of(&response, "content-encoding"), Some("gzip"));
    assert!(witness_proves(&response, site.root_digest().unwrap()));
}

#[test]
fn a_request_that_accepts_no_encoding_gets_the_identity_variant() {
    let site = encoded_site();
    let response = site.serve_asset(&CERTIFICATE, &get("/index.html")).ok().unwrap();
    assert_eq!(response.body, b"plain page".to_vec());
    assert_eq!(header_of(&response, "content-encoding"), None);
    let response =
        site.serve_asset(&CERTIFICATE, &get_accepting("/index.html", "br")).ok().unwrap();
    assert_eq!(response.body, b"plain page".to_vec());
    let response =
        site.serve_asset(&CERTIFICATE, &get_accepting("/index.html", "deflate")).ok().unwrap();
    assert_eq!(response.body, b"plain page".to_vec());
}

// The digest of the router's tree depends on the order in which the router
// takes the assets, but not while a level of the tree has at most three
// entries: such a level has one shape only. The site below has three
// entries on its top level and two below the empty segment.
#[test]
fn two_passes_over_the_same_files_publish_the_same_digest() {
    let (_, first) = certified(b"cycles: 7");
    let (_, second) = certified(b"cycles: 7");
    assert_eq!(first, second);
    let (mut site, third) = certified(b"cycles: 7");
    assert_eq!(first, third);
    let again = site.certify_all_assets(&site_files(), &rendering(b"cycles: 7")).ok().unwrap();
    assert_eq!(again, first);
}

#[test]
fn a_new_rendering_changes_the_page_and_the_digest() {
    let (mut site, before) = certified(b"cycles: 7");
    let after = site.certify_all_assets(&site_files(), &rendering(b"cycles: 8")).ok().unwrap();
    assert_ne!(before, after);
    assert_eq!(site.root_digest(), Some(after));
    let page = site.serve_asset(&CERTIFICATE, &get("/")).ok().unwrap();
    assert_eq!(page.body, b"cycles: 8".to_vec());
    assert!(witness_proves(&page, after));
    assert!(!witness_proves(&page, before));
    let other = site.serve_asset(&CERTIFICATE, &get("/404.html")).ok().unwrap();
    assert_eq!(other.body, b"<h1>gone</h1>".to_vec());
    assert!(witness_proves(&other, after));
}

// Compares digests of two sites, which agree for this small site (see
// above): had the first rendering stayed in the tree, they would differ.
#[test]
fn a_stale_rendering_leaves_the_tree_with_the_new_pass() {
    let (mut site, _) = certified(b"cycles: 7");
    site.certify_all_assets(&site_files(), &rendering(b"cycles: 8")).ok().unwrap();
    let (_, fresh) = certified(b"cycles: 8");
    assert_eq!(site.root_digest(), Some(fresh));
}

#[test]
fn a_pass_without_its_rendering_leaves_the_site_as_it_was() {
    let (mut site, digest) = certified(b"cycles: 7");
    let before = site.serve_asset(&CERTIFICATE, &get("/")).ok().unwrap();
    let outcome = site.certify_all_assets(&site_files(), &vec![None, None]);
    assert!(matches!(outcome, Err(CertifyError::Templating)));
    assert_eq!(site.root_digest(), Some(digest));
    assert_eq!(site.phase(), Phase::Certified);
    let after = site.serve_asset(&CERTIFICATE, &get("/")).ok().unwrap();
    assert_eq!(after.body, before.body);
    assert_eq!(after.headers, before.headers);
    assert!(witness_proves(&after, digest));
    let gone = site.serve_asset(&CERTIFICATE, &get("/nowhere")).ok().unwrap();
    assert_eq!(gone.status_code, 404);
}

#[test]
fn a_first_pass_that_fails_leaves_the_site_uninitialized() {
    let mut site = Site::new();
    let outcome = site.certify_all_assets(&site_files(), &vec![]);
    assert!(matches!(outcome, Err(CertifyError::Templating)));
    assert_eq!(site.phase(), Phase::Uninitialized);
    assert_eq!(site.serve_asset(&CERTIFICATE, &get("/")).err(), Some(ServeError::NotCertified));
    let digest = site.certify_all_assets(&site_files(), &rendering(b"cycles: 7")).ok().unwrap();
    assert_eq!(site.root_digest(), Some(digest));
}

#[test]
fn a_pattern_that_the_router_refuses_abandons_the_pass() {
    let (mut site, digest) = certified(b"cycles: 7");
    let rules = vec![AssetRule::Pattern {
        pattern: "a{b".to_string(),
        content_type: None,
        headers: vec![],
        encodings: vec![],
    }];
    let outcome = site.certify(&rules, &vec![file("x.js", b"x")], &vec![None], true);
    match outcome {
        Err(CertifyError::Router(refusal)) => {
            assert_eq!(refusal.kind, FailureKind::Pattern);
            assert!(refusal.message.starts_with("Glob error"));
        }
        _ => panic!("the router refuses the pattern"),
    }
    assert_eq!(site.root_digest(), Some(digest));
    assert_eq!(
        site.serve_asset(&CERTIFICATE, &get("/")).ok().unwrap().body,
        b"cycles: 7".to_vec()
    );
    assert_eq!(site.serve_asset(&CERTIFICATE, &get("/x.js")).ok().unwrap().status_code, 404);
}

fn pattern_rule(pattern: String) -> AssetRule {
    AssetRule::Pattern { pattern, content_type: None, headers: vec![], encodings: vec![] }
}

fn nested_pattern(levels: usize) -> String {
    format!("{}*.js{}", "{a".repeat(levels), "}".repeat(levels))
}

#[test]
fn a_pattern_that_is_too_long_abandons_the_pass() {
    let (mut site, digest) = certified(b"cycles: 7");
    let files = vec![file("x.js", b"x")];
    let outcome = site.certify(&vec![pattern_rule("a".repeat(129))], &files, &vec![None], true);
    assert!(matches!(outcome, Err(CertifyError::InvalidRule)));
    assert_eq!(site.root_digest(), Some(digest));
    let outcome = site.certify(&vec![pattern_rule(nested_pattern(130))], &files, &vec![None], true);
    assert!(matches!(outcome, Err(CertifyError::InvalidRule)));
    let outcome =
        site.certify(&vec![pattern_rule("a".repeat(400_000))], &files, &vec![None], true);
    assert!(matches!(outcome, Err(CertifyError::InvalidRule)));
    assert_eq!(site.root_digest(), Some(digest));
    assert_eq!(
        site.serve_asset(&CERTIFICATE, &get("/")).ok().unwrap().body,
        b"cycles: 7".to_vec()
    );
}

#[test]
fn the_longest_patterns_are_compiled() {
    let files = vec![file("x.js", b"x")];
    let longest = vec![
        "a".repeat(128),
        "é".repeat(128),
        nested_pattern(41),
        format!("{}x{}", "{".repeat(63), "}".repeat(64 - 1)),
        format!("{}b{}", "{a,".repeat(31), "}".repeat(31)),
        "[a-z]".repeat(25),
        "*?".repeat(64),
    ];
    for pattern in longest {
        assert!(pattern.chars().count() <= 128, "{}", pattern);
        let mut site = Site::new();
        let outcome = site.certify(&vec![pattern_rule(pattern)], &files, &vec![None], true);
        assert!(outcome.is_ok());
    }
}

#[test]
fn a_pass_ends_with_what_the_router_made_of_it() {
    let (mut site, digest) = certified(b"cycles: 7");
    assert!(site.begin_pass());
    let refusal = RouterFailure { kind: FailureKind::Certification, message: "no".to_string() };
    match site.conclude_pass(PassRouter::new(), Err(refusal)) {
        Err(CertifyError::Router(reason)) => {
            assert_eq!(reason.kind, FailureKind::Certification);
            assert_eq!(reason.message, "no");
        }
        _ => panic!("the refusal comes back"),
    }
    assert_eq!(site.root_digest(), Some(digest));
    assert!(site.begin_pass());
    assert_eq!(
        site.serve_asset(&CERTIFICATE, &get("/")).ok().unwrap().body,
        b"cycles: 7".to_vec()
    );
    let empty = site.conclude_pass(PassRouter::new(), Ok(())).ok().unwrap();
    assert_ne!(empty, digest);
    assert_eq!(site.root_digest(), Some(empty));
    assert!(site.begin_pass());
    assert_eq!(site.serve_asset(&CERTIFICATE, &get("/")).err(), Some(ServeError::NotFound));
}

#[test]
fn an_asset_that_the_router_cannot_certify_abandons_the_pass() {
    let (mut site, digest) = certified(b"cycles: 7");
    let outcome = site.certify(&vec![], &vec![file("a b.txt", b"x")], &vec![None], true);
    match outcome {
        Err(CertifyError::Router(refusal)) => {
            assert_eq!(refusal.kind, FailureKind::Certification)
        }
        _ => panic!("the router refuses the path"),
    }
    assert_eq!(site.root_digest(), Some(digest));
    for _ in 0..10 {
        let files = vec![file("one.txt", b"1"), file("a b.txt", b"x"), file("two.txt", b"2")];
        let mut fresh = Site::new();
        assert!(fresh.certify(&vec![], &files, &vec![None, None, None], true).is_err());
        assert_eq!(fresh.phase(), Phase::Uninitialized);
    }
}

#[test]
fn a_status_that_cannot_be_sent_abandons_the_pass() {
    let (mut site, digest) = certified(b"cycles: 7");
    let rules = vec![AssetRule::File {
        path: "404.html".to_string(),
        content_type: None,
        headers: vec![],
        fallback_for: vec![FallbackScope { scope: "/".to_string(), status_code: Some(1000) }],
        aliased_by: vec![],
        encodings: vec![],
    }];
    let outcome = site.certify(&rules, &vec![file("404.html", b"x")], &vec![None], true);
    assert!(matches!(outcome, Err(CertifyError::InvalidRule)));
    assert_eq!(site.root_digest(), Some(digest));
    let outcome = site.certify(&rules, &vec![file("index.hbs", b"x")], &vec![None], true);
    assert!(matches!(outcome, Err(CertifyError::Templating)));
}

#[test]
fn the_plan_of_a_pass_holds_the_staged_assets() {
    let plan = plan_pass(&vec![], &site_files(), &rendering(b"cycles: 7"), true).ok().unwrap();
    let staged: Vec<(String, Vec<u8>)> =
        plan.into_iter().map(|Asset { path, content }| (path, content)).collect();
    assert_eq!(
        staged,
        vec![
            ("index.html".to_string(), b"cycles: 7".to_vec()),
            ("404.html".to_string(), b"<h1>gone</h1>".to_vec()),
        ]
    );
    assert!(matches!(
        plan_pass(&vec![], &site_files(), &vec![None, None], true),
        Err(CertifyError::Templating)
    ));
    assert!(plan_pass(&vec![], &site_files(), &vec![None, None], false).is_ok());
}

#[test]
fn a_file_without_rule_is_served_without_headers_of_its_own() {
    let mut site = Site::new();
    site.certify(&vec![], &vec![file("notes.txt", b"n")], &vec![None], true).ok().unwrap();
    let response = site.serve_asset(&CERTIFICATE, &get("/notes.txt")).ok().unwrap();
    assert_eq!(response.body, b"n".to_vec());
    assert_eq!(header_of(&response, "content-type"), None);
    assert_eq!(header_of(&response, "x-frame-options"), None);
}

#[test]
fn scripts_and_style_sheets_are_cached_for_good() {
    let files = vec![
        file("index.hbs", b"t"),
        file("404.html", b"gone"),
        file("app.js", b"js"),
        file("app.css", b"css"),
    ];
    let mut site = Site::new();
    site.certify_all_assets(&files, &vec![Some(b"p".to_vec()), None, None, None]).ok().unwrap();
    let script = site.serve_asset(&CERTIFICATE, &get("/app.js")).ok().unwrap();
    assert_eq!(script.body, b"js".to_vec());
    assert_eq!(header_of(&script, "content-type"), Some("text/javascript"));
    assert_eq!(
        header_of(&script, "cache-control"),
        Some("public, max-age=31536000, immutable")
    );
    let style = site.serve_asset(&CERTIFICATE, &get("/app.css")).ok().unwrap();
    assert_eq!(header_of(&style, "content-type"), Some("text/css"));
    assert!(witness_proves(&style, site.root_digest().unwrap()));
}

#[test]
fn the_router_decides_what_a_request_is_answered_with() {
    let response = Response { status_code: 200, headers: vec![], body: vec![1] };
    let served = serve_outcome(Ok(response)).ok().unwrap();
    assert_eq!(served.status_code, 200);
    assert_eq!(served.body, vec![1]);
    let refusal = |kind| RouterFailure { kind, message: String::new() };
    assert_eq!(serve_outcome(Err(refusal(FailureKind::NoAsset))).err(), Some(ServeError::NotFound));
    assert_eq!(
        serve_outcome(Err(refusal(FailureKind::Request))).err(),
        Some(ServeError::MalformedRequest)
    );
    assert_eq!(
        serve_outcome(Err(refusal(FailureKind::Certification))).err(),
        Some(ServeError::NotCertified)
    );
    assert_eq!(
        serve_outcome(Err(refusal(FailureKind::Pattern))).err(),
        Some(ServeError::NotCertified)
    );
}

#[test]
fn a_malformed_range_header_is_refused() {
    let (site, _) = certified(b"cycles: 7");
    let request = Request {
        url: "/".to_string(),
        headers: vec![("Range".to_string(), "lines=1-2".to_string())],
    };
    assert_eq!(site.serve_asset(&CERTIFICATE, &request).err(), Some(ServeError::MalformedRequest));
}

#[test]
fn a_url_that_cannot_be_read_is_refused() {
    let (site, _) = certified(b"cycles: 7");
    assert_eq!(
        site.http_request(&CERTIFICATE, &get("/a b")).err(),
        Some(ServeError::MalformedRequest)
    );
    assert_eq!(
        site.serve_asset(&CERTIFICATE, &get("/a b")).err(),
        Some(ServeError::NotCertified)
    );
    let page = site.http_request(&CERTIFICATE, &get("https://node.example/index.html?x=1"));
    assert_eq!(page.ok().unwrap().body, b"cycles: 7".to_vec());
}

#[test]
fn only_one_pass_is_in_flight_at_a_time() {
    let mut site = Site::new();
    assert!(site.begin_pass());
    assert!(!site.begin_pass());
    assert!(!site.begin_pass());
    site.certify_all_assets(&site_files(), &rendering(b"cycles: 7")).ok().unwrap();
    assert!(site.begin_pass());
    assert!(!site.begin_pass());
    assert!(site.certify_all_assets(&site_files(), &vec![]).is_err());
    assert!(site.begin_pass());
}

#[test]
fn a_pass_that_was_never_run_can_be_given_up() {
    let (mut site, digest) = certified(b"cycles: 7");
    assert!(site.begin_pass());
    assert!(!site.begin_pass());
    site.abandon_pass();
    assert_eq!(site.root_digest(), Some(digest));
    assert!(site.begin_pass());
    site.abandon_pass();
    site.abandon_pass();
    assert!(site.begin_pass());
    assert_eq!(
        site.serve_asset(&CERTIFICATE, &get("/")).ok().unwrap().body,
        b"cycles: 7".to_vec()
    );
}

#[test]
fn the_cost_of_a_pass_is_what_was_counted_in_between() {
    let (mut site, digest) = certified(b"cycles: 7");
    site.record_pass_cost(1_000, 4_500);
    assert_eq!(site.last_cycles_cost(), 3_500);
    site.record_pass_cost(7, 7);
    assert_eq!(site.last_cycles_cost(), 0);
    site.record_pass_cost(0, u64::MAX);
    assert_eq!(site.last_cycles_cost(), u64::MAX);
    assert_eq!(site.root_digest(), Some(digest));
}
