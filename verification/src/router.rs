//! The boundary to the asset router that certifies and serves the site.
//!
//! The router and its certification tree are opaque here. What the library
//! relies on is stated on the functions below, each of which makes one call
//! into the router's crate; nothing in this file is proved.
//!
//! A router can share its tree with others. Every router of this library
//! comes from `new_router`, which gives it a tree of its own, so that what a
//! router serves and the digest of its tree change only where the library
//! changes them.

use crate::corpus::{Asset, AssetView};
use crate::headers::HeaderText;
use crate::rules::{
    pattern_is_valid, status_is_valid, AssetRuleView, EncodedVariant, EncodedVariantView,
    Encoding, FallbackScope, FallbackScopeView,
};
use ic_asset_certification::{
    AssetCertificationError, AssetConfig, AssetEncoding, AssetFallbackConfig, AssetRouter,
};
use ic_http_certification::{HttpRequest, StatusCode};
use vstd::prelude::*;

verus! {

/// `ic_asset_certification::AssetRouter`: the certified responses of a site
/// together with their certification tree.
#[verifier::external_type_specification]
#[verifier::external_body]
pub struct ExAssetRouter<'content>(AssetRouter<'content>);

/// `ic_asset_certification::AssetCertificationError`: a refusal of the router.
#[verifier::external_type_specification]
#[verifier::external_body]
pub struct ExAssetCertificationError(AssetCertificationError);

/// `ic_asset_certification::AssetConfig`: a rule as the router takes it.
#[verifier::external_type_specification]
#[verifier::external_body]
pub struct ExAssetConfig(AssetConfig);

/// `ic_asset_certification::AssetFallbackConfig`: a fallback scope as the
/// router takes it.
#[verifier::external_type_specification]
#[verifier::external_body]
pub struct ExAssetFallbackConfig(AssetFallbackConfig);

/// `ic_asset_certification::AssetEncoding`: an encoding as the router names
/// it.
#[verifier::external_type_specification]
#[verifier::external_body]
pub struct ExAssetEncoding(AssetEncoding);

/// What the router reads of a request: its URL and its headers.
pub struct Request {
    pub url: String,
    pub headers: Vec<(String, String)>,
}

pub struct RequestView {
    pub url: Seq<char>,
    pub headers: Seq<HeaderText>,
}

impl View for Request {
    type V = RequestView;

    open spec fn view(&self) -> RequestView {
        RequestView { url: self.url@, headers: self.headers.deep_view() }
    }
}

/// A response as the router serves it. Its headers end with the
/// certification header, which carries the witness.
pub struct Response {
    pub status_code: u16,
    pub headers: Vec<(String, String)>,
    pub body: Vec<u8>,
}

pub struct ResponseView {
    pub status_code: u16,
    pub headers: Seq<HeaderText>,
    pub body: Seq<u8>,
}

impl View for Response {
    type V = ResponseView;

    open spec fn view(&self) -> ResponseView {
        ResponseView {
            status_code: self.status_code,
            headers: self.headers.deep_view(),
            body: self.body@,
        }
    }
}

/// Why the router refused a call.
#[derive(Clone, Copy, Debug, PartialEq, Eq, Structural)]
pub enum FailureKind {
    /// Neither an asset nor a fallback scope matches the requested path.
    NoAsset,
    /// A URL could not be read, or a response could not be certified.
    Certification,
    /// A glob pattern of a rule could not be parsed.
    Pattern,
    /// A header of the request is malformed.
    Request,
}

/// A refusal of the router, with the router's own words.
pub struct RouterFailure {
    pub kind: FailureKind,
    pub message: String,
}

pub struct RouterFailureView {
    pub kind: FailureKind,
    pub message: Seq<char>,
}

impl View for RouterFailure {
    type V = RouterFailureView;

    open spec fn view(&self) -> RouterFailureView {
        RouterFailureView { kind: self.kind, message: self.message@ }
    }
}

/// The root digest of the certification tree that a router holds.
pub uninterp spec fn router_root(router: AssetRouter<'static>) -> Seq<u8>;

/// The response that a router serves for a request, given the bytes of the
/// node's data certificate; where it serves none, the kind of its refusal.
pub uninterp spec fn routed(
    router: AssetRouter<'static>,
    certificate: Seq<u8>,
    request: RequestView,
) -> Result<ResponseView, FailureKind>;

/// Whether a router holds no response and an empty tree.
pub uninterp spec fn router_is_empty(router: AssetRouter<'static>) -> bool;

/// Whether `after` is a router that `before` becomes when the router
/// certifies the assets under the rules and accepts them all. The router
/// takes the assets in an order of its own, so that `before`, the assets and
/// the rules do not decide on one such router.
pub uninterp spec fn filled_by(
    before: AssetRouter<'static>,
    after: AssetRouter<'static>,
    assets: Seq<AssetView>,
    rules: Seq<AssetRuleView>,
) -> bool;

/// The kind of a refusal and the text that it displays.
pub uninterp spec fn failure_view(error: AssetCertificationError) -> RouterFailureView;

/// Whether the router certifies the assets under the rules. The router
/// accepts when it can compile every pattern and certify every asset under
/// the first rule that matches it; neither depends on the order in which it
/// takes the assets.
pub uninterp spec fn accepts(assets: Seq<AssetView>, rules: Seq<AssetRuleView>) -> bool;

/// The rules that configs of the router hold, one after the other.
pub open spec fn config_views(configs: Seq<AssetConfig>) -> Seq<AssetRuleView> {
    configs.map_values(|config: AssetConfig| config_view(config))
}

/// No config holds a pattern that is too long to be compiled.
pub open spec fn patterns_are_valid(configs: Seq<AssetConfig>) -> bool {
    forall|i: int|
        0 <= i < configs.len() ==> (config_view(#[trigger] configs[i]) matches AssetRuleView::Pattern {
            pattern,
            ..
        } ==> pattern_is_valid(pattern))
}

/// The path of a URL, percent-decoded, without domain, query or fragment;
/// `None` where the URL cannot be read.
pub uninterp spec fn url_path(url: Seq<char>) -> Option<Seq<char>>;

/// The scope and the status that a fallback config of the router holds.
pub uninterp spec fn fallback_view(config: AssetFallbackConfig) -> FallbackScopeView;

/// The encoding that an encoding of the router stands for.
pub uninterp spec fn encoding_of(encoding: AssetEncoding) -> Encoding;

/// The rule that a config of the router holds.
pub uninterp spec fn config_view(config: AssetConfig) -> AssetRuleView;

/// What fallback configs of the router hold, one after the other.
pub open spec fn fallback_views(configs: Seq<AssetFallbackConfig>) -> Seq<FallbackScopeView> {
    configs.map_values(|config: AssetFallbackConfig| fallback_view(config))
}

/// The encoded variant that a pair of the router holds.
pub open spec fn encoding_view(config: (AssetEncoding, String)) -> EncodedVariantView {
    EncodedVariantView { encoding: encoding_of(config.0), suffix: config.1@ }
}

/// What pairs of the router hold, one after the other.
pub open spec fn encoding_views(configs: Seq<(AssetEncoding, String)>) -> Seq<
    EncodedVariantView,
> {
    configs.map_values(|config: (AssetEncoding, String)| encoding_view(config))
}

/// `AssetRouter::new`: a router that holds no asset, with a certification
/// tree of its own.
#[verifier::external_body]
pub(crate) fn new_router() -> (router: AssetRouter<'static>)
    ensures
        router_is_empty(router),
{
    AssetRouter::new()
}

/// `AssetRouter::root_hash`: reads the root digest of the router's tree.
#[verifier::external_body]
pub(crate) fn root_hash(router: &AssetRouter<'static>) -> (digest: [u8; 32])
    ensures
        digest@ == router_root(*router),
{
    router.root_hash()
}

/// Builds the router's `AssetFallbackConfig` for a scope: the config holds
/// the text of the scope and its status. `StatusCode::from_u16` accepts the
/// codes from 100 to 999 and keeps the number.
#[verifier::external_body]
pub(crate) fn fallback_config(scope: &FallbackScope) -> (config: AssetFallbackConfig)
    requires
        scope.status_code matches Some(code) ==> status_is_valid(code),
    ensures
        fallback_view(config) == scope@,
{
    AssetFallbackConfig {
        scope: scope.scope.clone(),
        status_code: scope.status_code.map(|code| StatusCode::from_u16(code).unwrap()),
    }
}

/// `AssetEncoding::custom_config`: the router's pair of an encoding and the
/// suffix of its files. The pair holds the router's encoding of the same
/// name and the suffix given.
#[verifier::external_body]
pub(crate) fn encoding_config(variant: &EncodedVariant) -> (config: (AssetEncoding, String))
    ensures
        encoding_of(config.0) == variant.encoding,
        config.1@ == variant.suffix@,
{
    let encoding = match variant.encoding {
        Encoding::Identity => AssetEncoding::Identity,
        Encoding::Brotli => AssetEncoding::Brotli,
        Encoding::Zstd => AssetEncoding::Zstd,
        Encoding::Gzip => AssetEncoding::Gzip,
        Encoding::Deflate => AssetEncoding::Deflate,
    };
    encoding.custom_config(variant.suffix.clone())
}

/// Builds the router's `AssetConfig::File` from the fields of a file rule:
/// the config holds each field as it was given.
#[verifier::external_body]
pub(crate) fn file_config(
    path: &String,
    content_type: &Option<String>,
    headers: &Vec<(String, String)>,
    fallback_for: Vec<AssetFallbackConfig>,
    aliased_by: &Vec<String>,
    encodings: Vec<(AssetEncoding, String)>,
) -> (config: AssetConfig)
    ensures
        config_view(config) == (AssetRuleView::File {
            path: path@,
            content_type: content_type.deep_view(),
            headers: headers.deep_view(),
            fallback_for: fallback_views(fallback_for@),
            aliased_by: aliased_by.deep_view(),
            encodings: encoding_views(encodings@),
        }),
{
    AssetConfig::File {
        path: path.clone(),
        content_type: content_type.clone(),
        headers: headers.clone(),
        fallback_for,
        aliased_by: aliased_by.clone(),
        encodings,
    }
}

/// Builds the router's `AssetConfig::Pattern` from the fields of a pattern
/// rule: the config holds each field as it was given.
#[verifier::external_body]
pub(crate) fn pattern_config(
    pattern: &String,
    content_type: &Option<String>,
    headers: &Vec<(String, String)>,
    encodings: Vec<(AssetEncoding, String)>,
) -> (config: AssetConfig)
    ensures
        config_view(config) == (AssetRuleView::Pattern {
            pattern: pattern@,
            content_type: content_type.deep_view(),
            headers: headers.deep_view(),
            encodings: encoding_views(encodings@),
        }),
{
    AssetConfig::Pattern {
        pattern: pattern.clone(),
        content_type: content_type.clone(),
        headers: headers.clone(),
        encodings,
    }
}

/// `AssetRouter::certify_assets`: certifies the assets under the configs and
/// inserts their responses into the router.
///
/// The router compiles every pattern first and panics on one that the
/// compiler of regular expressions refuses, so no config may hold a pattern
/// of more than `MAX_PATTERN_LEN` characters. Whether it accepts is a
/// matter of the assets and the configs alone. What it has inserted is not:
/// it takes the assets in an order of its own, on which the shape of its
/// tree depends, and it may have inserted some when it fails. Of the router
/// after a call that it accepted, the contract says that the call has
/// filled it; after a refusal nothing is claimed of the router, nor of
/// which refusal comes back.
#[verifier::external_body]
pub(crate) fn certify_assets(
    router: &mut AssetRouter<'static>,
    assets: Vec<Asset>,
    configs: Vec<AssetConfig>,
) -> (outcome: Result<(), AssetCertificationError>)
    requires
        patterns_are_valid(configs@),
    ensures
        outcome is Ok <==> accepts(assets.deep_view(), config_views(configs@)),
        outcome is Ok ==> filled_by(
            *old(router),
            *final(router),
            assets.deep_view(),
            config_views(configs@),
        ),
{
    let assets = assets.into_iter().map(
        |asset| ic_asset_certification::Asset::new(asset.path, asset.content),
    );
    router.certify_assets(assets, configs)
}

/// `AssetRouter::serve_asset` for a GET request with the URL and headers
/// given. The router looks the response up by the path and the accepted
/// encodings, and appends the certification header built from the data
/// certificate and the witness of its tree. Response and refusal are a
/// matter of the router, the certificate and the request alone.
#[verifier::external_body]
pub(crate) fn serve(
    router: &AssetRouter<'static>,
    data_certificate: &[u8],
    request: &Request,
) -> (outcome: Result<Response, AssetCertificationError>)
    ensures
        match outcome {
            Ok(response) => routed(*router, data_certificate@, request@) == Ok::<
                ResponseView,
                FailureKind,
            >(response@),
            Err(error) => routed(*router, data_certificate@, request@) == Err::<
                ResponseView,
                FailureKind,
            >(failure_view(error).kind),
        },
{
    let request = HttpRequest::get(request.url.clone()).with_headers(request.headers.clone()).build();
    let response = router.serve_asset(data_certificate, &request)?;
    Ok(Response {
        status_code: response.status_code().as_u16(),
        headers: response.headers().to_vec(),
        body: response.body().to_vec(),
    })
}

/// Tells the variants of `AssetCertificationError` apart and keeps the text
/// that the error displays.
#[verifier::external_body]
pub(crate) fn failure(error: AssetCertificationError) -> (failure: RouterFailure)
    ensures
        failure@ == failure_view(error),
{
    let message = error.to_string();
    let kind = match error {
        AssetCertificationError::NoAssetMatchingRequestUrl { .. } => FailureKind::NoAsset,
        AssetCertificationError::HttpCertificationError(_) => FailureKind::Certification,
        AssetCertificationError::GlobsetError(_) => FailureKind::Pattern,
        AssetCertificationError::RequestError(_) => FailureKind::Request,
    };
    RouterFailure { kind, message }
}

/// `HttpRequest::get_path` on a GET request for `url`.
#[verifier::external_body]
pub(crate) fn request_path(url: &str) -> (path: Option<String>)
    ensures
        path.deep_view() == url_path(url@),
{
    HttpRequest::get(url).build().get_path().ok()
}

} // verus!
