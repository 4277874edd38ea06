//! The declarations that say how the files of the site are certified.
//!
//! A rule is a declaration only. The router expands the rules against the
//! staged assets during a certification pass.

use crate::corpus::{Asset, AssetView};
use crate::headers::{get_asset_headers, header, security_headers, HeaderText};
use vstd::prelude::*;
use vstd::string::StrSliceExecFns;

verus! {

/// A content encoding in which a variant of an asset can be stored.
#[derive(Clone, Copy, Debug, PartialEq, Eq, Structural)]
pub enum Encoding {
    Identity,
    Brotli,
    Zstd,
    Gzip,
    Deflate,
}

/// An encoding together with the suffix that the path of an encoded variant
/// carries: the variant of `app.js` with suffix `.gz` is staged as
/// `app.js.gz`.
#[derive(Debug)]
pub struct EncodedVariant {
    pub encoding: Encoding,
    pub suffix: String,
}

pub struct EncodedVariantView {
    pub encoding: Encoding,
    pub suffix: Seq<char>,
}

impl View for EncodedVariant {
    type V = EncodedVariantView;

    open spec fn view(&self) -> EncodedVariantView {
        EncodedVariantView { encoding: self.encoding, suffix: self.suffix@ }
    }
}

impl DeepView for EncodedVariant {
    type V = EncodedVariantView;

    open spec fn deep_view(&self) -> EncodedVariantView {
        self@
    }
}

/// A path prefix for which a file stands in when no asset matches a request,
/// and the status that the substitute response carries (200 where none is
/// given).
#[derive(Debug)]
pub struct FallbackScope {
    pub scope: String,
    pub status_code: Option<u16>,
}

pub struct FallbackScopeView {
    pub scope: Seq<char>,
    pub status_code: Option<u16>,
}

impl View for FallbackScope {
    type V = FallbackScopeView;

    open spec fn view(&self) -> FallbackScopeView {
        FallbackScopeView { scope: self.scope@, status_code: self.status_code }
    }
}

impl DeepView for FallbackScope {
    type V = FallbackScopeView;

    open spec fn deep_view(&self) -> FallbackScopeView {
        self@
    }
}

/// How one file, or every file that a glob pattern matches, is certified.
#[derive(Debug)]
pub enum AssetRule {
    /// A rule for the file at exactly `path`.
    File {
        path: String,
        content_type: Option<String>,
        headers: Vec<(String, String)>,
        /// The scopes for which this file is the substitute response.
        fallback_for: Vec<FallbackScope>,
        /// Further paths under which the same content is served.
        aliased_by: Vec<String>,
        encodings: Vec<EncodedVariant>,
    },
    /// A rule for every file whose path matches the glob `pattern`.
    Pattern {
        pattern: String,
        content_type: Option<String>,
        headers: Vec<(String, String)>,
        encodings: Vec<EncodedVariant>,
    },
}

pub enum AssetRuleView {
    File {
        path: Seq<char>,
        content_type: Option<Seq<char>>,
        headers: Seq<HeaderText>,
        fallback_for: Seq<FallbackScopeView>,
        aliased_by: Seq<Seq<char>>,
        encodings: Seq<EncodedVariantView>,
    },
    Pattern {
        pattern: Seq<char>,
        content_type: Option<Seq<char>>,
        headers: Seq<HeaderText>,
        encodings: Seq<EncodedVariantView>,
    },
}

impl View for AssetRule {
    type V = AssetRuleView;

    open spec fn view(&self) -> AssetRuleView {
        match *self {
            AssetRule::File { path, content_type, headers, fallback_for, aliased_by, encodings } => {
                AssetRuleView::File {
                    path: path@,
                    content_type: content_type.deep_view(),
                    headers: headers.deep_view(),
                    fallback_for: fallback_for.deep_view(),
                    aliased_by: aliased_by.deep_view(),
                    encodings: encodings.deep_view(),
                }
            },
            AssetRule::Pattern { pattern, content_type, headers, encodings } => {
                AssetRuleView::Pattern {
                    pattern: pattern@,
                    content_type: content_type.deep_view(),
                    headers: headers.deep_view(),
                    encodings: encodings.deep_view(),
                }
            },
        }
    }
}

impl DeepView for AssetRule {
    type V = AssetRuleView;

    open spec fn deep_view(&self) -> AssetRuleView {
        self@
    }
}

/// The suffix that an encoding has by default.
pub open spec fn default_suffix(encoding: Encoding) -> Seq<char> {
    match encoding {
        Encoding::Identity => ""@,
        Encoding::Brotli => ".br"@,
        Encoding::Zstd => ".zst"@,
        Encoding::Gzip => ".gz"@,
        Encoding::Deflate => ".zz"@,
    }
}

impl Encoding {
    /// The encoding with its default suffix.
    pub fn default_config(self) -> (variant: EncodedVariant)
        ensures
            variant@ == (EncodedVariantView { encoding: self, suffix: default_suffix(self) }),
    {
        let suffix = match self {
            Encoding::Identity => "",
            Encoding::Brotli => ".br",
            Encoding::Zstd => ".zst",
            Encoding::Gzip => ".gz",
            Encoding::Deflate => ".zz",
        };
        EncodedVariant { encoding: self, suffix: suffix.to_owned() }
    }

    /// The encoding with a suffix of the caller's choice.
    pub fn custom_config(self, suffix: String) -> (variant: EncodedVariant)
        ensures
            variant@ == (EncodedVariantView { encoding: self, suffix: suffix@ }),
    {
        EncodedVariant { encoding: self, suffix }
    }
}

/// The encoded variants that the site offers: Brotli, then Gzip.
pub open spec fn site_encodings() -> Seq<EncodedVariantView> {
    seq![
        EncodedVariantView { encoding: Encoding::Brotli, suffix: ".br"@ },
        EncodedVariantView { encoding: Encoding::Gzip, suffix: ".gz"@ },
    ]
}

/// The cache policy of pages, which must be fetched anew each time.
pub open spec fn no_cache_headers() -> Seq<HeaderText> {
    security_headers() + seq![("cache-control"@, "public, no-cache, no-store"@)]
}

/// The cache policy of files whose name changes with their content.
pub open spec fn immutable_headers() -> Seq<HeaderText> {
    security_headers() + seq![("cache-control"@, "public, max-age=31536000, immutable"@)]
}

/// The rules of the site, in the order in which they are tried:
/// the index page, also served at `/`; the not-found page, which stands in
/// with status 404 for every unmatched path; scripts; style sheets.
pub open spec fn site_rule_set() -> Seq<AssetRuleView> {
    seq![
        AssetRuleView::File {
            path: "index.html"@,
            content_type: Some("text/html"@),
            headers: no_cache_headers(),
            fallback_for: seq![],
            aliased_by: seq!["/"@],
            encodings: site_encodings(),
        },
        AssetRuleView::File {
            path: "404.html"@,
            content_type: Some("text/html"@),
            headers: no_cache_headers(),
            fallback_for: seq![FallbackScopeView { scope: "/"@, status_code: Some(404u16) }],
            aliased_by: seq![],
            encodings: site_encodings(),
        },
        AssetRuleView::Pattern {
            pattern: "**/*.js"@,
            content_type: Some("text/javascript"@),
            headers: immutable_headers(),
            encodings: site_encodings(),
        },
        AssetRuleView::Pattern {
            pattern: "**/*.css"@,
            content_type: Some("text/css"@),
            headers: immutable_headers(),
            encodings: site_encodings(),
        },
    ]
}

fn encodings() -> (variants: Vec<EncodedVariant>)
    ensures
        variants.deep_view() == site_encodings(),
{
    let mut variants: Vec<EncodedVariant> = Vec::new();
    variants.push(Encoding::Brotli.default_config());
    variants.push(Encoding::Gzip.default_config());
    assert(variants.deep_view() =~= site_encodings());
    variants
}

fn cache_headers(policy: &str) -> (headers: Vec<(String, String)>)
    ensures
        headers.deep_view() == security_headers() + seq![("cache-control"@, policy@)],
{
    let mut additional: Vec<(String, String)> = Vec::new();
    additional.push(header("cache-control", policy));
    assert(additional.deep_view() =~= seq![("cache-control"@, policy@)]);
    get_asset_headers(additional)
}

/// The rules of the site.
pub fn site_rules() -> (rules: Vec<AssetRule>)
    ensures
        rules.deep_view() == site_rule_set(),
        rules_are_valid(rules.deep_view()),
{
    let mut index_aliases: Vec<String> = Vec::new();
    index_aliases.push("/".to_owned());
    assert(index_aliases.deep_view() =~= seq!["/"@]);
    let index = AssetRule::File {
        path: "index.html".to_owned(),
        content_type: Some("text/html".to_owned()),
        headers: cache_headers("public, no-cache, no-store"),
        fallback_for: Vec::new(),
        aliased_by: index_aliases,
        encodings: encodings(),
    };
    assert(index@ == site_rule_set()[0]) by {
        assert(index->File_fallback_for.deep_view() =~= Seq::<FallbackScopeView>::empty());
    }

    let mut scopes: Vec<FallbackScope> = Vec::new();
    scopes.push(FallbackScope { scope: "/".to_owned(), status_code: Some(404) });
    assert(scopes.deep_view() =~= seq![
        FallbackScopeView { scope: "/"@, status_code: Some(404u16) },
    ]);
    let not_found = AssetRule::File {
        path: "404.html".to_owned(),
        content_type: Some("text/html".to_owned()),
        headers: cache_headers("public, no-cache, no-store"),
        fallback_for: scopes,
        aliased_by: Vec::new(),
        encodings: encodings(),
    };
    assert(not_found@ == site_rule_set()[1]) by {
        assert(not_found->File_aliased_by.deep_view() =~= Seq::<Seq<char>>::empty());
    }

    let scripts = AssetRule::Pattern {
        pattern: "**/*.js".to_owned(),
        content_type: Some("text/javascript".to_owned()),
        headers: cache_headers("public, max-age=31536000, immutable"),
        encodings: encodings(),
    };
    assert(scripts@ == site_rule_set()[2]);
    let styles = AssetRule::Pattern {
        pattern: "**/*.css".to_owned(),
        content_type: Some("text/css".to_owned()),
        headers: cache_headers("public, max-age=31536000, immutable"),
        encodings: encodings(),
    };
    assert(styles@ == site_rule_set()[3]);

    let mut rules: Vec<AssetRule> = Vec::new();
    rules.push(index);
    rules.push(not_found);
    rules.push(scripts);
    rules.push(styles);
    assert(rules.deep_view() =~= site_rule_set());
    assert(rules_are_valid(rules.deep_view())) by {
        assert forall|i: int| 0 <= i < rules.deep_view().len() implies rule_is_valid(
            #[trigger] rules.deep_view()[i],
        ) by {
            assert(i == 0 || i == 1 || i == 2 || i == 3);
            reveal_strlit("**/*.js");
            reveal_strlit("**/*.css");
        }
    }
    rules
}

/// Whether `code` can be sent as the status of a response: three digits.
pub open spec fn status_is_valid(code: u16) -> bool {
    100 <= code <= 999
}

/// Fallback scopes are valid when every status that they name can be sent.
pub open spec fn scopes_are_valid(scopes: Seq<FallbackScopeView>) -> bool {
    forall|i: int|
        0 <= i < scopes.len() ==> match (#[trigger] scopes[i]).status_code {
            Some(code) => status_is_valid(code),
            None => true,
        }
}

/// The greatest number of characters that a glob pattern may have.
///
/// The router compiles a pattern into a regular expression and does not
/// survive a pattern that the compiler of the expression refuses. That
/// compiler allows 250 levels of nesting, and a glob nests up to two levels
/// for every three of its characters, so that a pattern of some 380
/// characters can be refused; it also allows the automaton 10 MiB, which a
/// pattern of some hundred thousand characters exceeds. 128 characters stay
/// well below both.
pub const MAX_PATTERN_LEN: usize = 128;

/// A pattern is valid when it is short enough to be compiled.
pub open spec fn pattern_is_valid(pattern: Seq<char>) -> bool {
    pattern.len() <= MAX_PATTERN_LEN
}

/// A file rule is valid when its fallback scopes are, a pattern rule when
/// its pattern is.
pub open spec fn rule_is_valid(rule: AssetRuleView) -> bool {
    match rule {
        AssetRuleView::File { fallback_for, .. } => scopes_are_valid(fallback_for),
        AssetRuleView::Pattern { pattern, .. } => pattern_is_valid(pattern),
    }
}

pub open spec fn rules_are_valid(rules: Seq<AssetRuleView>) -> bool {
    forall|i: int| 0 <= i < rules.len() ==> rule_is_valid(#[trigger] rules[i])
}

fn check_scopes(scopes: &Vec<FallbackScope>) -> (valid: bool)
    ensures
        valid == scopes_are_valid(scopes.deep_view()),
{
    let mut i: usize = 0;
    while i < scopes.len()
        invariant
            i <= scopes.len(),
            forall|j: int|
                0 <= j < i ==> match (#[trigger] scopes.deep_view()[j]).status_code {
                    Some(code) => status_is_valid(code),
                    None => true,
                },
        decreases scopes.len() - i,
    {
        match scopes[i].status_code {
            Some(code) => {
                if code < 100 || code > 999 {
                    assert(scopes.deep_view()[i as int] == scopes[i as int]@);
                    return false;
                }
            },
            None => {},
        }
        i += 1;
    }
    true
}

fn check_rule(rule: &AssetRule) -> (valid: bool)
    ensures
        valid == rule_is_valid(rule@),
{
    match rule {
        AssetRule::File { fallback_for, .. } => check_scopes(fallback_for),
        AssetRule::Pattern { pattern, .. } => pattern.as_str().unicode_len() <= MAX_PATTERN_LEN,
    }
}

/// Tells whether every rule is valid.
pub fn check_rules(rules: &Vec<AssetRule>) -> (valid: bool)
    ensures
        valid == rules_are_valid(rules.deep_view()),
{
    let mut i: usize = 0;
    while i < rules.len()
        invariant
            i <= rules.len(),
            forall|j: int| 0 <= j < i ==> rule_is_valid(#[trigger] rules.deep_view()[j]),
        decreases rules.len() - i,
    {
        if !check_rule(&rules[i]) {
            assert(!rule_is_valid(rules.deep_view()[i as int]));
            return false;
        }
        i += 1;
    }
    true
}

/// The fallback scopes that a rule declares, in their order.
pub open spec fn scopes_of(rule: AssetRuleView) -> Seq<FallbackScopeView> {
    match rule {
        AssetRuleView::File { fallback_for, .. } => fallback_for,
        AssetRuleView::Pattern { .. } => Seq::empty(),
    }
}

/// The path of the file that a file rule is for.
pub open spec fn file_of(rule: AssetRuleView) -> Option<Seq<char>> {
    match rule {
        AssetRuleView::File { path, .. } => Some(path),
        AssetRuleView::Pattern { .. } => None,
    }
}

/// Some asset is staged under `path`.
pub open spec fn is_staged(assets: Seq<AssetView>, path: Seq<char>) -> bool {
    exists|n: int| 0 <= n < assets.len() && (#[trigger] assets[n]).path == path
}

/// Some file rule before rule `i` is for `path`.
pub open spec fn ruled_before(rules: Seq<AssetRuleView>, i: int, path: Seq<char>) -> bool {
    exists|j: int| 0 <= j < i && j < rules.len() && file_of(#[trigger] rules[j]) == Some(path)
}

/// A file rule is live in a pass when an asset is staged under its path and
/// no file rule before it is for the same path. The router applies to an
/// asset the first rule that matches it, so that a file rule that is not
/// live certifies nothing, and its fallback scopes answer no request.
///
/// A file rule is also without effect where a pattern rule before it
/// matches its path. What a pattern matches is the router's to say, so such
/// a rule counts as live here: put file rules before the pattern rules that
/// match their files.
pub open spec fn rule_is_live(rules: Seq<AssetRuleView>, assets: Seq<AssetView>, i: int) -> bool {
    match file_of(rules[i]) {
        Some(path) => is_staged(assets, path) && !ruled_before(rules, i, path),
        None => false,
    }
}

/// For each rule, whether it is live in a pass over `assets`.
pub open spec fn live_marks(rules: Seq<AssetRuleView>, assets: Seq<AssetView>) -> Seq<bool> {
    Seq::new(rules.len(), |i: int| rule_is_live(rules, assets, i))
}

/// Scope `l` of rule `j` is declared by a live rule before scope `k` of rule
/// `i`: in an earlier rule, or earlier in the same rule.
pub open spec fn declared_earlier(
    rules: Seq<AssetRuleView>,
    live: Seq<bool>,
    j: int,
    l: int,
    i: int,
    k: int,
) -> bool {
    &&& 0 <= j < rules.len()
    &&& j < live.len()
    &&& live[j]
    &&& 0 <= l < scopes_of(rules[j]).len()
    &&& j < i || (j == i && l < k)
}

/// Some scope that a live rule declares before scope `k` of rule `i` has the
/// text `scope`.
pub open spec fn declared_before(
    rules: Seq<AssetRuleView>,
    live: Seq<bool>,
    i: int,
    k: int,
    scope: Seq<char>,
) -> bool {
    exists|j: int, l: int| #[trigger]
        declared_earlier(rules, live, j, l, i, k) && scopes_of(rules[j])[l].scope == scope
}

/// Where several live rules declare the same scope, the first declaration
/// stands. Scope `k` of rule `i` stands when no live rule declares a scope
/// of the same text before it.
pub open spec fn is_first_declaration(
    rules: Seq<AssetRuleView>,
    live: Seq<bool>,
    i: int,
    k: int,
) -> bool {
    !declared_before(rules, live, i, k, scopes_of(rules[i])[k].scope)
}

/// The scopes that `marks` lets stand, in their order: scope `k` stands
/// where `marks[k]` is set.
pub open spec fn standing(scopes: Seq<FallbackScopeView>, marks: Seq<bool>) -> Seq<
    FallbackScopeView,
>
    decreases scopes.len(),
{
    if scopes.len() == 0 {
        Seq::empty()
    } else {
        let earlier = standing(scopes.drop_last(), marks.drop_last());
        if marks.last() {
            earlier.push(scopes.last())
        } else {
            earlier
        }
    }
}

/// A rule with the fallback scopes that `marks` lets stand and every other
/// field as it is.
pub open spec fn standing_rule(rule: AssetRuleView, marks: Seq<bool>) -> AssetRuleView {
    match rule {
        AssetRuleView::File { path, content_type, headers, fallback_for, aliased_by, encodings } => {
            AssetRuleView::File {
                path,
                content_type,
                headers,
                fallback_for: standing(fallback_for, marks),
                aliased_by,
                encodings,
            }
        },
        AssetRuleView::Pattern { .. } => rule,
    }
}

/// For each scope of rule `i`, whether it is a first declaration.
pub open spec fn first_marks(rules: Seq<AssetRuleView>, live: Seq<bool>, i: int) -> Seq<bool> {
    Seq::new(scopes_of(rules[i]).len(), |k: int| is_first_declaration(rules, live, i, k))
}

/// Rule `i` as a pass hands it to the router: with the fallback scopes that
/// no live rule declares before it.
pub open spec fn handed_rule(rules: Seq<AssetRuleView>, live: Seq<bool>, i: int) -> AssetRuleView {
    standing_rule(rules[i], first_marks(rules, live, i))
}

/// The rules as a pass over `assets` hands them to the router, in their
/// order.
pub open spec fn handed_rules(rules: Seq<AssetRuleView>, assets: Seq<AssetView>) -> Seq<
    AssetRuleView,
> {
    Seq::new(rules.len(), |i: int| handed_rule(rules, live_marks(rules, assets), i))
}

/// Tells whether an asset is staged under `path`.
fn staged_under(assets: &Vec<Asset>, path: &String) -> (found: bool)
    ensures
        found == is_staged(assets.deep_view(), path@),
{
    let mut n: usize = 0;
    while n < assets.len()
        invariant
            n <= assets.len(),
            forall|m: int| 0 <= m < n ==> (#[trigger] assets.deep_view()[m]).path != path@,
        decreases assets.len() - n,
    {
        assert(assets.deep_view()[n as int] == assets[n as int]@);
        if assets[n].path == *path {
            return true;
        }
        n += 1;
    }
    false
}

/// Tells whether a file rule before rule `i` is for `path`.
fn has_rule_before(rules: &Vec<AssetRule>, i: usize, path: &String) -> (found: bool)
    requires
        i <= rules.len(),
    ensures
        found == ruled_before(rules.deep_view(), i as int, path@),
{
    let mut j: usize = 0;
    while j < i
        invariant
            j <= i,
            i <= rules.len(),
            forall|m: int| 0 <= m < j ==> file_of(#[trigger] rules.deep_view()[m]) != Some(path@),
        decreases i - j,
    {
        assert(rules.deep_view()[j as int] == rules[j as int]@);
        match &rules[j] {
            AssetRule::File { path: other, .. } => {
                if *other == *path {
                    return true;
                }
            },
            AssetRule::Pattern { .. } => {},
        }
        j += 1;
    }
    false
}

/// Marks the rules that are live in a pass over `assets`.
pub fn live_rules(rules: &Vec<AssetRule>, assets: &Vec<Asset>) -> (live: Vec<bool>)
    ensures
        live@ == live_marks(rules.deep_view(), assets.deep_view()),
{
    let mut live: Vec<bool> = Vec::new();
    let mut i: usize = 0;
    while i < rules.len()
        invariant
            i <= rules.len(),
            live.len() == i,
            forall|r: int|
                0 <= r < i ==> #[trigger] live[r] == rule_is_live(
                    rules.deep_view(),
                    assets.deep_view(),
                    r,
                ),
        decreases rules.len() - i,
    {
        assert(rules.deep_view()[i as int] == rules[i as int]@);
        let mark = match &rules[i] {
            AssetRule::File { path, .. } => {
                staged_under(assets, path) && !has_rule_before(rules, i, path)
            },
            AssetRule::Pattern { .. } => false,
        };
        live.push(mark);
        i += 1;
    }
    assert(live@ =~= live_marks(rules.deep_view(), assets.deep_view()));
    live
}

/// Some text in `seen` is `scope`.
spec fn holds_text(seen: Seq<String>, scope: Seq<char>) -> bool {
    exists|n: int| 0 <= n < seen.len() && (#[trigger] seen[n])@ == scope
}

/// Tells whether `scope` is among the texts in `seen`.
fn seen_before(seen: &Vec<String>, scope: &String) -> (found: bool)
    ensures
        found == holds_text(seen@, scope@),
{
    let mut n: usize = 0;
    while n < seen.len()
        invariant
            n <= seen.len(),
            forall|m: int| 0 <= m < n ==> (#[trigger] seen[m])@ != scope@,
        decreases seen.len() - n,
    {
        if seen[n] == *scope {
            return true;
        }
        n += 1;
    }
    false
}

/// Marks, for each rule and each of its fallback scopes, whether the scope
/// stands: whether no rule that `live` marks declares its text before it.
pub fn first_declarations(rules: &Vec<AssetRule>, live: &Vec<bool>) -> (marks: Vec<Vec<bool>>)
    requires
        live.len() == rules.len(),
    ensures
        marks.len() == rules.len(),
        forall|i: int|
            0 <= i < rules.len() ==> (#[trigger] marks[i])@ == first_marks(
                rules.deep_view(),
                live@,
                i,
            ),
{
    let ghost views = rules.deep_view();
    let ghost lives = live@;
    let mut marks: Vec<Vec<bool>> = Vec::new();
    let mut seen: Vec<String> = Vec::new();
    let none: Vec<FallbackScope> = Vec::new();
    assert(none.deep_view() =~= Seq::<FallbackScopeView>::empty());
    let mut i: usize = 0;
    assert forall|scope: Seq<char>|
        holds_text(seen@, scope) == #[trigger] declared_before(views, lives, 0, 0, scope) by {
        assert forall|j: int, l: int| !#[trigger] declared_earlier(views, lives, j, l, 0, 0) by {}
    }
    while i < rules.len()
        invariant
            i <= rules.len(),
            live.len() == rules.len(),
            views == rules.deep_view(),
            lives == live@,
            none.deep_view() == Seq::<FallbackScopeView>::empty(),
            marks.len() == i,
            forall|r: int| 0 <= r < i ==> (#[trigger] marks[r])@ == first_marks(views, lives, r),
            forall|scope: Seq<char>|
                holds_text(seen@, scope) == #[trigger] declared_before(
                    views,
                    lives,
                    i as int,
                    0,
                    scope,
                ),
        decreases rules.len() - i,
    {
        assert(views[i as int] == rules[i as int]@);
        let scopes: &Vec<FallbackScope> = match &rules[i] {
            AssetRule::File { fallback_for, .. } => fallback_for,
            AssetRule::Pattern { .. } => &none,
        };
        assert(scopes.deep_view() == scopes_of(views[i as int]));
        let counts = live[i];
        let mut row: Vec<bool> = Vec::new();
        let mut k: usize = 0;
        while k < scopes.len()
            invariant
                i < rules.len(),
                k <= scopes.len(),
                live.len() == rules.len(),
                views == rules.deep_view(),
                lives == live@,
                counts == lives[i as int],
                scopes.deep_view() == scopes_of(views[i as int]),
                row.len() == k,
                forall|c: int|
                    0 <= c < k ==> #[trigger] row[c] == is_first_declaration(
                        views,
                        lives,
                        i as int,
                        c,
                    ),
                forall|scope: Seq<char>|
                    holds_text(seen@, scope) == #[trigger] declared_before(
                        views,
                        lives,
                        i as int,
                        k as int,
                        scope,
                    ),
            decreases scopes.len() - k,
        {
            let scope = &scopes[k].scope;
            assert(scopes.deep_view()[k as int] == scopes[k as int]@);
            assert(scopes_of(views[i as int])[k as int].scope == scope@);
            let found = seen_before(&seen, scope);
            let ghost before = seen@;
            if !found && counts {
                seen.push(scope.clone());
                assert(seen@[before.len() as int]@ == scope@);
            }
            row.push(!found);
            assert forall|text: Seq<char>|
                holds_text(seen@, text) == #[trigger] declared_before(
                    views,
                    lives,
                    i as int,
                    k + 1,
                    text,
                ) by {
                if holds_text(seen@, text) {
                    let n = choose|n: int| 0 <= n < seen.len() && (#[trigger] seen@[n])@ == text;
                    if n < before.len() {
                        assert(before[n] == seen@[n]);
                        assert(holds_text(before, text));
                        assert(declared_before(views, lives, i as int, k as int, text));
                        let (j, l) = choose|j: int, l: int| #[trigger]
                            declared_earlier(views, lives, j, l, i as int, k as int) && scopes_of(
                                views[j],
                            )[l].scope == text;
                        assert(declared_earlier(views, lives, j, l, i as int, k + 1));
                    } else {
                        assert(declared_earlier(views, lives, i as int, k as int, i as int, k + 1));
                    }
                }
                if declared_before(views, lives, i as int, k + 1, text) {
                    let (j, l) = choose|j: int, l: int| #[trigger]
                        declared_earlier(views, lives, j, l, i as int, k + 1) && scopes_of(
                            views[j],
                        )[l].scope == text;
                    if j == i && l == k {
                        if found {
                            let n = choose|n: int|
                                0 <= n < before.len() && (#[trigger] before[n])@ == scope@;
                            assert(seen@[n] == before[n]);
                        } else {
                            assert(seen@[before.len() as int]@ == text);
                        }
                    } else {
                        assert(declared_earlier(views, lives, j, l, i as int, k as int));
                        assert(declared_before(views, lives, i as int, k as int, text));
                        assert(holds_text(before, text));
                        let n = choose|n: int|
                            0 <= n < before.len() && (#[trigger] before[n])@ == text;
                        assert(seen@[n] == before[n]);
                    }
                }
            }
            k += 1;
        }
        assert forall|scope: Seq<char>|
            holds_text(seen@, scope) == #[trigger] declared_before(views, lives, i + 1, 0, scope) by {
            if declared_before(views, lives, i as int, k as int, scope) {
                let (j, l) = choose|j: int, l: int| #[trigger]
                    declared_earlier(views, lives, j, l, i as int, k as int) && scopes_of(
                        views[j],
                    )[l].scope == scope;
                assert(declared_earlier(views, lives, j, l, i + 1, 0));
            }
            if declared_before(views, lives, i + 1, 0, scope) {
                let (j, l) = choose|j: int, l: int| #[trigger]
                    declared_earlier(views, lives, j, l, i + 1, 0) && scopes_of(views[j])[l].scope
                        == scope;
                assert(declared_earlier(views, lives, j, l, i as int, k as int));
            }
        }
        assert(row@ =~= first_marks(views, lives, i as int));
        marks.push(row);
        i += 1;
    }
    marks
}

/// A tie between declarations of one scope has one winner: of two
/// declarations by live rules that have the same text and both stand,
/// neither comes before the other, so they are the same declaration.
pub proof fn one_declaration_stands(
    rules: Seq<AssetRuleView>,
    live: Seq<bool>,
    i: int,
    k: int,
    j: int,
    l: int,
)
    requires
        live.len() == rules.len(),
        0 <= i < rules.len(),
        0 <= k < scopes_of(rules[i]).len(),
        0 <= j < rules.len(),
        0 <= l < scopes_of(rules[j]).len(),
        live[i],
        live[j],
        scopes_of(rules[i])[k].scope == scopes_of(rules[j])[l].scope,
        is_first_declaration(rules, live, i, k),
        is_first_declaration(rules, live, j, l),
    ensures
        i == j,
        k == l,
{
    if j < i || (j == i && l < k) {
        assert(declared_earlier(rules, live, j, l, i, k));
    }
    if i < j || (i == j && k < l) {
        assert(declared_earlier(rules, live, i, k, j, l));
    }
}

} // verus!
