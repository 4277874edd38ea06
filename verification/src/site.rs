//! The certified site: the router, the digest that was last published, and
//! the passes that renew both.
//!
//! A site starts uninitialized and answers no request. A certification pass
//! certifies the staged assets into a router of its own and installs that
//! router together with its root digest only when the pass succeeded. A pass
//! that fails leaves the site as it was, so every request is answered against
//! the result of one complete pass.

use crate::corpus::{rendering_is_complete, stage_assets, staged_assets, Asset, SourceFile};
use crate::router::{
    accepts, certify_assets, config_view, config_views, encoding_config, encoding_view,
    encoding_views, failure, fallback_config, fallback_views, file_config, new_router,
    pattern_config, patterns_are_valid, request_path, root_hash, routed, router_is_empty,
    router_root, filled_by, serve,
    url_path, FailureKind, Request, RequestView, Response, ResponseView, RouterFailure,
};
use crate::rules::{
    check_rules, first_declarations, first_marks, handed_rule, handed_rules, live_marks,
    live_rules, pattern_is_valid, rule_is_valid, rules_are_valid, scopes_are_valid, scopes_of,
    site_rule_set, site_rules, standing, standing_rule, AssetRule, AssetRuleView, EncodedVariant,
    FallbackScope,
};
use ic_asset_certification::{AssetConfig, AssetEncoding, AssetFallbackConfig, AssetRouter};
use vstd::prelude::*;

verus! {

/// Whether the page templates of the site are rendered in every pass.
pub const ENABLE_TEMPLATING: bool = true;

/// The number of seconds between two certification passes.
pub const UPDATE_INTERVAL_SECS: u64 = 120;

/// Where a site stands: before its first complete pass, or after one.
#[derive(Clone, Copy, Debug, PartialEq, Eq, Structural)]
pub enum Phase {
    Uninitialized,
    Certified,
}

/// Why a certification pass was abandoned.
pub enum CertifyError {
    /// A page that the pass needs was not rendered.
    Templating,
    /// A fallback scope names a status that cannot be sent, or a pattern
    /// is too long to be compiled.
    InvalidRule,
    /// The router refused the assets or the rules.
    Router(RouterFailure),
}

/// Why a request got no response. None of the reasons is a want of an
/// acceptable encoding: where a request accepts no encoded variant of an
/// asset, the router serves the asset as it is.
#[derive(Clone, Copy, Debug, PartialEq, Eq, Structural)]
pub enum ServeError {
    /// No proof can be given for a response: no certification pass has
    /// completed yet, or the router cannot certify what it would serve.
    NotCertified,
    /// Neither an asset nor a fallback scope covers the requested path.
    NotFound,
    /// The URL or a header of the request cannot be read.
    MalformedRequest,
}

/// The error with which a refusal of the router is answered.
pub open spec fn serve_error_of(kind: FailureKind) -> ServeError {
    match kind {
        FailureKind::NoAsset => ServeError::NotFound,
        FailureKind::Request => ServeError::MalformedRequest,
        FailureKind::Certification => ServeError::NotCertified,
        FailureKind::Pattern => ServeError::NotCertified,
    }
}

/// What a request is answered with once the router has spoken: its response,
/// or the error that stands for its refusal.
pub fn serve_outcome(routed: Result<Response, RouterFailure>) -> (outcome: Result<
    Response,
    ServeError,
>)
    ensures
        match routed {
            Ok(response) => outcome == Ok::<Response, ServeError>(response),
            Err(refusal) => outcome == Err::<Response, ServeError>(serve_error_of(refusal.kind)),
        },
{
    match routed {
        Ok(response) => Ok(response),
        Err(refusal) => Err(
            match refusal.kind {
                FailureKind::NoAsset => ServeError::NotFound,
                FailureKind::Request => ServeError::MalformedRequest,
                FailureKind::Certification => ServeError::NotCertified,
                FailureKind::Pattern => ServeError::NotCertified,
            },
        ),
    }
}

/// The assets that a pass hands to the router, or the reason why it hands
/// over none: a rendering is missing, or else a rule is not valid.
pub fn plan_pass(
    rules: &Vec<AssetRule>,
    files: &Vec<SourceFile>,
    rendered: &Vec<Option<Vec<u8>>>,
    templating: bool,
) -> (plan: Result<Vec<Asset>, CertifyError>)
    ensures
        !rendering_is_complete(files.deep_view(), rendered.deep_view(), templating)
            ==> plan matches Err(CertifyError::Templating),
        rendering_is_complete(files.deep_view(), rendered.deep_view(), templating)
            && !rules_are_valid(rules.deep_view()) ==> plan matches Err(CertifyError::InvalidRule),
        rendering_is_complete(files.deep_view(), rendered.deep_view(), templating)
            && rules_are_valid(rules.deep_view()) ==> plan is Ok,
        plan matches Ok(assets) ==> assets.deep_view() == staged_assets(
            files.deep_view(),
            rendered.deep_view(),
            templating,
        ),
{
    match stage_assets(files, rendered, templating) {
        None => Err(CertifyError::Templating),
        Some(assets) => {
            if check_rules(rules) {
                Ok(assets)
            } else {
                Err(CertifyError::InvalidRule)
            }
        },
    }
}

/// The scopes of a file rule as the router takes them: the configs of those
/// that `marks` lets stand, in their order.
fn fallback_configs(scopes: &Vec<FallbackScope>, marks: &Vec<bool>) -> (configs: Vec<
    AssetFallbackConfig,
>)
    requires
        scopes_are_valid(scopes.deep_view()),
        marks.len() == scopes.len(),
    ensures
        fallback_views(configs@) == standing(scopes.deep_view(), marks@),
{
    let ghost views = scopes.deep_view();
    let mut configs: Vec<AssetFallbackConfig> = Vec::new();
    let mut i: usize = 0;
    assert(fallback_views(configs@) =~= standing(views.take(0), marks@.take(0)));
    while i < scopes.len()
        invariant
            i <= scopes.len(),
            marks.len() == scopes.len(),
            views == scopes.deep_view(),
            scopes_are_valid(views),
            fallback_views(configs@) == standing(views.take(i as int), marks@.take(i as int)),
        decreases scopes.len() - i,
    {
        let ghost held = configs@;
        assert(views.take(i + 1).drop_last() =~= views.take(i as int));
        assert(marks@.take(i + 1).drop_last() =~= marks@.take(i as int));
        assert(views[i as int] == scopes[i as int]@);
        if marks[i] {
            let config = fallback_config(&scopes[i]);
            configs.push(config);
            assert(fallback_views(configs@) =~= fallback_views(held).push(views[i as int]));
        }
        i += 1;
    }
    assert(views.take(i as int) =~= views);
    assert(marks@.take(i as int) =~= marks@);
    configs
}

/// The encoded variants of a rule as the router takes them, in their order.
fn encoding_configs(variants: &Vec<EncodedVariant>) -> (configs: Vec<(AssetEncoding, String)>)
    ensures
        encoding_views(configs@) == variants.deep_view(),
{
    let mut configs: Vec<(AssetEncoding, String)> = Vec::new();
    let mut i: usize = 0;
    while i < variants.len()
        invariant
            i <= variants.len(),
            configs.len() == i,
            forall|k: int|
                0 <= k < i ==> encoding_view(#[trigger] configs[k]) == variants[k]@,
        decreases variants.len() - i,
    {
        configs.push(encoding_config(&variants[i]));
        i += 1;
    }
    assert(encoding_views(configs@) =~= variants.deep_view());
    configs
}

/// A rule as the router takes it: the config holds the rule with the
/// fallback scopes that `marks` lets stand.
fn asset_config(rule: &AssetRule, marks: &Vec<bool>) -> (config: AssetConfig)
    requires
        rule_is_valid(rule@),
        marks.len() == scopes_of(rule@).len(),
    ensures
        config_view(config) == standing_rule(rule@, marks@),
{
    match rule {
        AssetRule::File { path, content_type, headers, fallback_for, aliased_by, encodings } => {
            file_config(
                path,
                content_type,
                headers,
                fallback_configs(fallback_for, marks),
                aliased_by,
                encoding_configs(encodings),
            )
        },
        AssetRule::Pattern { pattern, content_type, headers, encodings } => {
            pattern_config(pattern, content_type, headers, encoding_configs(encodings))
        },
    }
}

/// The rules as the router takes them in a pass over `assets`, in their
/// order: each config holds its rule with the fallback scopes that no live
/// rule declares before it.
fn asset_configs(rules: &Vec<AssetRule>, assets: &Vec<Asset>) -> (configs: Vec<AssetConfig>)
    requires
        rules_are_valid(rules.deep_view()),
    ensures
        config_views(configs@) == handed_rules(rules.deep_view(), assets.deep_view()),
        patterns_are_valid(configs@),
{
    let ghost views = rules.deep_view();
    let live = live_rules(rules, assets);
    let ghost lives = live@;
    let marks = first_declarations(rules, &live);
    let mut configs: Vec<AssetConfig> = Vec::new();
    let mut i: usize = 0;
    while i < rules.len()
        invariant
            i <= rules.len(),
            configs.len() == i,
            views == rules.deep_view(),
            rules_are_valid(views),
            marks.len() == rules.len(),
            forall|r: int|
                0 <= r < rules.len() ==> (#[trigger] marks[r])@ == first_marks(views, lives, r),
            forall|r: int|
                0 <= r < i ==> config_view(#[trigger] configs[r]) == handed_rule(views, lives, r),
        decreases rules.len() - i,
    {
        assert(views[i as int] == rules[i as int]@);
        assert(marks[i as int]@ == first_marks(views, lives, i as int));
        configs.push(asset_config(&rules[i], &marks[i]));
        i += 1;
    }
    assert(config_views(configs@) =~= handed_rules(views, assets.deep_view()));
    assert forall|r: int| 0 <= r < configs.len() implies (config_view(
        #[trigger] configs[r],
    ) matches AssetRuleView::Pattern { pattern, .. } ==> pattern_is_valid(pattern)) by {
        assert(rule_is_valid(views[r]));
    }
    configs
}

/// A router for a pass to fill. It is made empty, with a certification tree
/// of its own, and only a pass of this library fills it.
pub struct PassRouter {
    router: AssetRouter<'static>,
}

impl PassRouter {
    /// The router inside.
    pub closed spec fn router(&self) -> AssetRouter<'static> {
        self.router
    }

    /// An empty router.
    pub fn new() -> (filled: PassRouter)
        ensures
            router_is_empty(filled.router()),
    {
        PassRouter { router: new_router() }
    }
}

/// A site with its router, the digest that it published, and the state of
/// its passes.
pub struct Site {
    router: AssetRouter<'static>,
    digest: Option<[u8; 32]>,
    pass_in_flight: bool,
    last_pass_cost: u64,
}

impl Site {
    /// The published digest is the root digest of the router that answers.
    #[verifier::type_invariant]
    spec fn digest_is_current(self) -> bool {
        self.digest matches Some(digest) ==> digest@ == router_root(self.router)
    }

    /// The router that answers the requests.
    pub closed spec fn router(&self) -> AssetRouter<'static> {
        self.router
    }

    /// The digest that the last complete pass published, if there was one.
    pub closed spec fn published(&self) -> Option<Seq<u8>> {
        match self.digest {
            Some(digest) => Some(digest@),
            None => None,
        }
    }

    /// Whether a pass has begun and not yet ended.
    pub closed spec fn in_flight(&self) -> bool {
        self.pass_in_flight
    }

    /// The cost that was recorded for the last pass.
    pub closed spec fn pass_cost(&self) -> u64 {
        self.last_pass_cost
    }

    /// A site is certified once it has published a digest.
    pub open spec fn spec_phase(&self) -> Phase {
        if self.published() is Some {
            Phase::Certified
        } else {
            Phase::Uninitialized
        }
    }

    /// Two sites serve the same content when they answer from the same router
    /// and have published the same digest.
    pub open spec fn same_content(&self, other: Site) -> bool {
        self.router() == other.router() && self.published() == other.published()
    }

    /// What the site answers a request with, given the bytes of the node's
    /// data certificate: `NotCertified` before the first complete pass;
    /// after it the response that the router serves, or the error that
    /// stands for the router's refusal.
    pub open spec fn answer(&self, certificate: Seq<u8>, request: RequestView) -> Result<
        ResponseView,
        ServeError,
    > {
        if self.published() is Some {
            match routed(self.router(), certificate, request) {
                Ok(response) => Ok(response),
                Err(kind) => Err(serve_error_of(kind)),
            }
        } else {
            Err(ServeError::NotCertified)
        }
    }

    /// What the site replies to a request whose URL it reads first:
    /// `MalformedRequest` where the URL cannot be read, else its answer.
    pub open spec fn reply(&self, certificate: Seq<u8>, request: RequestView) -> Result<
        ResponseView,
        ServeError,
    > {
        if url_path(request.url) is Some {
            self.answer(certificate, request)
        } else {
            Err(ServeError::MalformedRequest)
        }
    }

    /// An uninitialized site: no pass has run, no digest is published.
    pub fn new() -> (site: Site)
        ensures
            site.published() is None,
            !site.in_flight(),
            site.pass_cost() == 0,
    {
        Site { router: new_router(), digest: None, pass_in_flight: false, last_pass_cost: 0 }
    }

    /// Where the site stands.
    #[verifier::when_used_as_spec(spec_phase)]
    pub fn phase(&self) -> (phase: Phase)
        ensures
            phase == self.spec_phase(),
    {
        match self.digest {
            Some(_) => Phase::Certified,
            None => Phase::Uninitialized,
        }
    }

    /// The digest that the last complete pass published. The digest is the
    /// root digest of the router that answers the requests.
    pub fn root_digest(&self) -> (digest: Option<[u8; 32]>)
        ensures
            digest.is_some() == self.published().is_some(),
            digest matches Some(bytes) ==> self.published() == Some(bytes@) && bytes@ == router_root(
                self.router(),
            ),
    {
        proof {
            use_type_invariant(self);
        }
        self.digest
    }

    /// Claims the right to run a pass. Returns `false`, and changes nothing,
    /// while an earlier pass is still in flight.
    pub fn begin_pass(&mut self) -> (begun: bool)
        ensures
            begun == !old(self).in_flight(),
            final(self).in_flight(),
            final(self).same_content(*old(self)),
            final(self).pass_cost() == old(self).pass_cost(),
    {
        proof {
            use_type_invariant(&*self);
        }
        if self.pass_in_flight {
            false
        } else {
            self.pass_in_flight = true;
            true
        }
    }

    /// Gives up the right to run a pass without having run one, as when the
    /// rendering never came back. The site keeps its content.
    pub fn abandon_pass(&mut self)
        ensures
            !final(self).in_flight(),
            final(self).same_content(*old(self)),
            final(self).pass_cost() == old(self).pass_cost(),
    {
        proof {
            use_type_invariant(&*self);
        }
        self.pass_in_flight = false;
    }

    /// Ends a pass with what the router made of it. On success the router
    /// that was filled replaces the one that answers and its root digest
    /// becomes the published one. On a refusal the site keeps its content.
    pub fn conclude_pass(
        &mut self,
        filled: PassRouter,
        certified: Result<(), RouterFailure>,
    ) -> (outcome: Result<[u8; 32], CertifyError>)
        ensures
            !final(self).in_flight(),
            final(self).pass_cost() == old(self).pass_cost(),
            match certified {
                Ok(_) => {
                    &&& outcome matches Ok(digest)
                    &&& digest@ == router_root(filled.router())
                    &&& final(self).router() == filled.router()
                    &&& final(self).published() == Some(digest@)
                },
                Err(refusal) => {
                    &&& outcome matches Err(CertifyError::Router(reason))
                    &&& reason == refusal
                    &&& final(self).same_content(*old(self))
                },
            },
    {
        proof {
            use_type_invariant(&*self);
        }
        match certified {
            Ok(_) => {
                let digest = root_hash(&filled.router);
                *self = Site {
                    router: filled.router,
                    digest: Some(digest),
                    pass_in_flight: false,
                    last_pass_cost: self.last_pass_cost,
                };
                Ok(digest)
            },
            Err(refusal) => {
                self.pass_in_flight = false;
                Err(CertifyError::Router(refusal))
            },
        }
    }

    /// Runs one certification pass over `files` under `rules`. `rendered`
    /// holds, for each file, what the templating engine made of it in this
    /// pass, or `None`.
    ///
    /// Where several rules declare the same fallback scope, the router is
    /// handed the first declaration by a rule whose file is staged (see
    /// `rule_is_live` and `first_declarations`).
    ///
    /// The pass succeeds when no rendering is missing, every rule is valid
    /// and the router accepts the staged assets under the rules handed to
    /// it. It is abandoned for the first of these that fails, and an
    /// abandoned pass leaves the content of the site as it was. A pass that
    /// succeeds returns the digest to publish: the root digest of the router
    /// that answers from then on.
    ///
    /// Every pass fills a router of its own. The router can be neither
    /// copied nor rolled back, so a pass that changed the answering router
    /// in place could not be abandoned half way.
    pub fn certify(
        &mut self,
        rules: &Vec<AssetRule>,
        files: &Vec<SourceFile>,
        rendered: &Vec<Option<Vec<u8>>>,
        templating: bool,
    ) -> (outcome: Result<[u8; 32], CertifyError>)
        ensures
            !final(self).in_flight(),
            final(self).pass_cost() == old(self).pass_cost(),
            outcome is Ok <==> {
                &&& rendering_is_complete(files.deep_view(), rendered.deep_view(), templating)
                &&& rules_are_valid(rules.deep_view())
                &&& accepts(
                    staged_assets(files.deep_view(), rendered.deep_view(), templating),
                    handed_rules(
                        rules.deep_view(),
                        staged_assets(files.deep_view(), rendered.deep_view(), templating),
                    ),
                )
            },
            outcome matches Ok(digest) ==> final(self).published() == Some(digest@) && digest@
                == router_root(final(self).router()),
            outcome is Ok ==> exists|empty: AssetRouter<'static>|
                router_is_empty(empty) && #[trigger] filled_by(
                    empty,
                    final(self).router(),
                    staged_assets(files.deep_view(), rendered.deep_view(), templating),
                    handed_rules(
                        rules.deep_view(),
                        staged_assets(files.deep_view(), rendered.deep_view(), templating),
                    ),
                ),
            outcome is Err ==> final(self).same_content(*old(self)),
            outcome matches Err(CertifyError::Templating) <==> !rendering_is_complete(
                files.deep_view(),
                rendered.deep_view(),
                templating,
            ),
            outcome matches Err(CertifyError::InvalidRule) <==> rendering_is_complete(
                files.deep_view(),
                rendered.deep_view(),
                templating,
            ) && !rules_are_valid(rules.deep_view()),
    {
        proof {
            use_type_invariant(&*self);
        }
        match plan_pass(rules, files, rendered, templating) {
            Err(reason) => {
                self.pass_in_flight = false;
                Err(reason)
            },
            Ok(assets) => {
                let ghost staged = assets.deep_view();
                let configs = asset_configs(rules, &assets);
                let mut filled = PassRouter::new();
                let ghost empty = filled.router();
                let certified = match certify_assets(&mut filled.router, assets, configs) {
                    Ok(_) => Ok(()),
                    Err(error) => Err(failure(error)),
                };
                let outcome = self.conclude_pass(filled, certified);
                assert(outcome is Ok ==> filled_by(
                    empty,
                    self.router(),
                    staged,
                    handed_rules(rules.deep_view(), staged),
                ));
                outcome
            },
        }
    }

    /// Runs one certification pass over `files` under the rules of the site,
    /// which are valid: the pass succeeds when no rendering is missing and
    /// the router accepts.
    pub fn certify_all_assets(
        &mut self,
        files: &Vec<SourceFile>,
        rendered: &Vec<Option<Vec<u8>>>,
    ) -> (outcome: Result<[u8; 32], CertifyError>)
        ensures
            !final(self).in_flight(),
            final(self).pass_cost() == old(self).pass_cost(),
            outcome is Ok <==> {
                &&& rendering_is_complete(
                    files.deep_view(),
                    rendered.deep_view(),
                    ENABLE_TEMPLATING,
                )
                &&& accepts(
                    staged_assets(files.deep_view(), rendered.deep_view(), ENABLE_TEMPLATING),
                    handed_rules(
                        site_rule_set(),
                        staged_assets(files.deep_view(), rendered.deep_view(), ENABLE_TEMPLATING),
                    ),
                )
            },
            outcome matches Ok(digest) ==> final(self).published() == Some(digest@) && digest@
                == router_root(final(self).router()),
            outcome is Ok ==> exists|empty: AssetRouter<'static>|
                router_is_empty(empty) && #[trigger] filled_by(
                    empty,
                    final(self).router(),
                    staged_assets(files.deep_view(), rendered.deep_view(), ENABLE_TEMPLATING),
                    handed_rules(
                        site_rule_set(),
                        staged_assets(files.deep_view(), rendered.deep_view(), ENABLE_TEMPLATING),
                    ),
                ),
            outcome is Err ==> final(self).same_content(*old(self)),
            outcome matches Err(CertifyError::Templating) <==> !rendering_is_complete(
                files.deep_view(),
                rendered.deep_view(),
                ENABLE_TEMPLATING,
            ),
            !(outcome matches Err(CertifyError::InvalidRule)),
    {
        let rules = site_rules();
        self.certify(&rules, files, rendered, ENABLE_TEMPLATING)
    }

    /// Answers a request with the response that the router serves for it,
    /// which carries the witness against the published digest. A site that
    /// has completed no pass answers `NotCertified`; where the router of a
    /// certified site refuses, the error is the one that `serve_outcome`
    /// gives for the refusal.
    pub fn serve_asset(&self, data_certificate: &[u8], request: &Request) -> (outcome: Result<
        Response,
        ServeError,
    >)
        ensures
            match outcome {
                Ok(response) => self.answer(data_certificate@, request@) == Ok::<
                    ResponseView,
                    ServeError,
                >(response@),
                Err(reason) => self.answer(data_certificate@, request@) == Err::<
                    ResponseView,
                    ServeError,
                >(reason),
            },
    {
        match self.digest {
            None => Err(ServeError::NotCertified),
            Some(_) => {
                let routed = match serve(&self.router, data_certificate, request) {
                    Ok(response) => Ok(response),
                    Err(error) => Err(failure(error)),
                };
                serve_outcome(routed)
            },
        }
    }

    /// Answers a request after making sure that its URL can be read.
    pub fn http_request(&self, data_certificate: &[u8], request: &Request) -> (outcome: Result<
        Response,
        ServeError,
    >)
        ensures
            match outcome {
                Ok(response) => self.reply(data_certificate@, request@) == Ok::<
                    ResponseView,
                    ServeError,
                >(response@),
                Err(reason) => self.reply(data_certificate@, request@) == Err::<
                    ResponseView,
                    ServeError,
                >(reason),
            },
    {
        match request_path(request.url.as_str()) {
            None => Err(ServeError::MalformedRequest),
            Some(_) => self.serve_asset(data_certificate, request),
        }
    }

    /// Records what a pass cost: the instructions counted when it ended less
    /// those counted when it began.
    pub fn record_pass_cost(&mut self, started: u64, finished: u64)
        requires
            started <= finished,
        ensures
            final(self).pass_cost() == finished - started,
            final(self).same_content(*old(self)),
            final(self).in_flight() == old(self).in_flight(),
    {
        proof {
            use_type_invariant(&*self);
        }
        self.last_pass_cost = finished - started;
    }

    /// The cost that was recorded for the last pass.
    pub fn last_cycles_cost(&self) -> (cost: u64)
        ensures
            cost == self.pass_cost(),
    {
        self.last_pass_cost
    }
}

/// A pass that was abandoned changes no answer. Where `after` is the site
/// that an abandoned pass left of `before`, both have published the same
/// digest, stand in the same phase, and answer every request alike.
pub proof fn abandoned_pass_keeps_answers(
    before: Site,
    after: Site,
    certificate: Seq<u8>,
    request: RequestView,
)
    requires
        after.same_content(before),
    ensures
        after.published() == before.published(),
        after.phase() == before.phase(),
        after.answer(certificate, request) == before.answer(certificate, request),
{
}

/// Answers are a function of the site, the data certificate and the request:
/// two certified sites that answer from the same router answer every
/// request alike, whatever passes are in flight and whatever the last pass
/// cost.
pub proof fn answers_depend_on_content_alone(
    one: Site,
    other: Site,
    certificate: Seq<u8>,
    request: RequestView,
)
    requires
        one.router() == other.router(),
        one.published() is Some,
        other.published() is Some,
    ensures
        one.answer(certificate, request) == other.answer(certificate, request),
        one.reply(certificate, request) == other.reply(certificate, request),
{
}

} // verus!
