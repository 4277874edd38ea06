//! The files of the site and the assets that a certification pass stages
//! from them.
//!
//! Every file is staged under its own path with its own bytes, but for page
//! templates: a template is staged as the index page, with the bytes that the
//! templating engine rendered from it in this pass.

use crate::text::{copy_bytes, ends_with};
use vstd::prelude::*;

verus! {

/// A file of the site as it was built: its path and its bytes.
pub struct SourceFile {
    pub path: String,
    pub contents: Vec<u8>,
}

pub struct SourceFileView {
    pub path: Seq<char>,
    pub contents: Seq<u8>,
}

impl View for SourceFile {
    type V = SourceFileView;

    open spec fn view(&self) -> SourceFileView {
        SourceFileView { path: self.path@, contents: self.contents@ }
    }
}

impl DeepView for SourceFile {
    type V = SourceFileView;

    open spec fn deep_view(&self) -> SourceFileView {
        self@
    }
}

/// An asset as it is handed to the router: the path under which it is
/// certified and the bytes that are served.
pub struct Asset {
    pub path: String,
    pub content: Vec<u8>,
}

pub struct AssetView {
    pub path: Seq<char>,
    pub content: Seq<u8>,
}

impl View for Asset {
    type V = AssetView;

    open spec fn view(&self) -> AssetView {
        AssetView { path: self.path@, content: self.content@ }
    }
}

impl DeepView for Asset {
    type V = AssetView;

    open spec fn deep_view(&self) -> AssetView {
        self@
    }
}

/// A file is a page template when its path ends in `index.hbs`.
pub open spec fn is_template_path(path: Seq<char>) -> bool {
    "index.hbs"@.is_suffix_of(path)
}

/// A template is rendered anew in every pass while templating is switched
/// on; no other file is ever rendered.
pub open spec fn needs_rendering(file: SourceFileView, templating: bool) -> bool {
    templating && is_template_path(file.path)
}

/// The asset that one file is staged as. `rendered` is what the templating
/// engine made of the file in this pass, where it was asked to.
pub open spec fn staged_asset(
    file: SourceFileView,
    rendered: Option<Seq<u8>>,
    templating: bool,
) -> AssetView {
    if is_template_path(file.path) {
        AssetView {
            path: "index.html"@,
            content: if templating {
                rendered->0
            } else {
                file.contents
            },
        }
    } else {
        AssetView { path: file.path, content: file.contents }
    }
}

/// Every file has an entry in `rendered`, and every file that needs
/// rendering was rendered.
pub open spec fn rendering_is_complete(
    files: Seq<SourceFileView>,
    rendered: Seq<Option<Seq<u8>>>,
    templating: bool,
) -> bool {
    &&& rendered.len() == files.len()
    &&& forall|i: int|
        0 <= i < files.len() && needs_rendering(#[trigger] files[i], templating)
            ==> rendered[i] is Some
}

/// The assets of a pass: one for each file, in the order of the files.
pub open spec fn staged_assets(
    files: Seq<SourceFileView>,
    rendered: Seq<Option<Seq<u8>>>,
    templating: bool,
) -> Seq<AssetView> {
    Seq::new(files.len(), |i: int| staged_asset(files[i], rendered[i], templating))
}

/// Tells whether `path` is that of a page template.
pub fn is_template(path: &str) -> (template: bool)
    ensures
        template == is_template_path(path@),
{
    ends_with(path, "index.hbs")
}

/// Says of each file whether it must be rendered before the pass can stage
/// it.
pub fn render_plan(files: &Vec<SourceFile>, templating: bool) -> (plan: Vec<bool>)
    ensures
        plan.len() == files.len(),
        forall|i: int|
            0 <= i < files.len() ==> plan[i] == needs_rendering(
                #[trigger] files.deep_view()[i],
                templating,
            ),
{
    let mut plan: Vec<bool> = Vec::new();
    let mut i: usize = 0;
    while i < files.len()
        invariant
            i <= files.len(),
            plan.len() == i,
            forall|j: int|
                0 <= j < i ==> plan[j] == needs_rendering(
                    #[trigger] files.deep_view()[j],
                    templating,
                ),
        decreases files.len() - i,
    {
        let template = is_template(files[i].path.as_str());
        assert(files.deep_view()[i as int] == files[i as int]@);
        plan.push(templating && template);
        i += 1;
    }
    plan
}

/// Stages the assets of a pass. Returns `None`, and stages nothing, when a
/// rendering that the pass needs is missing.
pub fn stage_assets(
    files: &Vec<SourceFile>,
    rendered: &Vec<Option<Vec<u8>>>,
    templating: bool,
) -> (assets: Option<Vec<Asset>>)
    ensures
        assets is Some <==> rendering_is_complete(
            files.deep_view(),
            rendered.deep_view(),
            templating,
        ),
        assets matches Some(staged) ==> staged.deep_view() == staged_assets(
            files.deep_view(),
            rendered.deep_view(),
            templating,
        ),
{
    if rendered.len() != files.len() {
        return None;
    }
    let ghost file_views = files.deep_view();
    let ghost rendered_views = rendered.deep_view();
    let mut staged: Vec<Asset> = Vec::new();
    let mut i: usize = 0;
    while i < files.len()
        invariant
            i <= files.len(),
            rendered.len() == files.len(),
            file_views == files.deep_view(),
            rendered_views == rendered.deep_view(),
            staged.len() == i,
            forall|j: int|
                0 <= j < i && needs_rendering(#[trigger] file_views[j], templating)
                    ==> rendered_views[j] is Some,
            forall|j: int|
                0 <= j < i ==> (#[trigger] staged[j])@ == staged_asset(
                    file_views[j],
                    rendered_views[j],
                    templating,
                ),
        decreases files.len() - i,
    {
        let file = &files[i];
        assert(file_views[i as int] == file@);
        assert(rendered_views[i as int] == rendered[i as int].deep_view());
        let asset = if is_template(file.path.as_str()) {
            if templating {
                match &rendered[i] {
                    Some(page) => {
                        assert(page.deep_view() =~= page@);
                        Asset { path: "index.html".to_owned(), content: copy_bytes(page) }
                    },
                    None => {
                        assert(needs_rendering(file_views[i as int], templating));
                        return None;
                    },
                }
            } else {
                Asset { path: "index.html".to_owned(), content: copy_bytes(&file.contents) }
            }
        } else {
            Asset { path: file.path.clone(), content: copy_bytes(&file.contents) }
        };
        staged.push(asset);
        i += 1;
    }
    assert(staged.deep_view() =~= staged_assets(file_views, rendered_views, templating));
    Some(staged)
}

} // verus!
