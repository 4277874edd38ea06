use static_backend::corpus::{is_template, render_plan, stage_assets, Asset, SourceFile};
use static_backend::text::copy_bytes;

fn file(path: &str, contents: &[u8]) -> SourceFile {
    SourceFile { path: path.to_string(), contents: contents.to_vec() }
}

fn pairs(assets: &[Asset]) -> Vec<(String, Vec<u8>)> {
    assets.iter().map(|a| (a.path.clone(), a.content.clone())).collect()
}

#[test]
fn a_template_path_ends_in_index_hbs() {
    assert!(is_template("index.hbs"));
    assert!(is_template("pages/index.hbs"));
    assert!(is_template("myindex.hbs"));
    assert!(!is_template("index.html"));
    assert!(!is_template("index.hbs.bak"));
    assert!(!is_template("ndex.hbs"));
    assert!(!is_template(""));
    assert!(!is_template("hbs"));
}

#[test]
fn only_templates_are_rendered_and_only_while_templating() {
    let files = vec![file("index.hbs", b"t"), file("404.html", b"n"), file("a/index.hbs", b"u")];
    assert_eq!(render_plan(&files, true), vec![true, false, true]);
    assert_eq!(render_plan(&files, false), vec![false, false, false]);
    assert_eq!(render_plan(&vec![], true), Vec::<bool>::new());
}

#[test]
fn a_template_is_staged_as_the_index_page_with_its_rendering() {
    let files = vec![file("404.html", b"gone"), file("index.hbs", b"{{cycles}}"), file("app.js", b"js")];
    let rendered = vec![None, Some(b"<p>7</p>".to_vec()), None];
    let staged = stage_assets(&files, &rendered, true).unwrap();
    assert_eq!(
        pairs(&staged),
        vec![
            ("404.html".to_string(), b"gone".to_vec()),
            ("index.html".to_string(), b"<p>7</p>".to_vec()),
            ("app.js".to_string(), b"js".to_vec()),
        ]
    );
}

#[test]
fn without_templating_a_template_is_staged_with_its_own_bytes() {
    let files = vec![file("index.hbs", b"{{cycles}}")];
    let staged = stage_assets(&files, &vec![None], false).unwrap();
    assert_eq!(pairs(&staged), vec![("index.html".to_string(), b"{{cycles}}".to_vec())]);
    let staged = stage_assets(&files, &vec![Some(b"x".to_vec())], false).unwrap();
    assert_eq!(pairs(&staged), vec![("index.html".to_string(), b"{{cycles}}".to_vec())]);
}

#[test]
fn a_rendering_of_another_file_is_not_used() {
    let files = vec![file("app.js", b"js")];
    let staged = stage_assets(&files, &vec![Some(b"other".to_vec())], true).unwrap();
    assert_eq!(pairs(&staged), vec![("app.js".to_string(), b"js".to_vec())]);
}

#[test]
fn a_missing_rendering_stages_nothing() {
    let files = vec![file("404.html", b"gone"), file("index.hbs", b"{{cycles}}")];
    assert!(stage_assets(&files, &vec![None, None], true).is_none());
    assert!(stage_assets(&files, &vec![None], true).is_none());
    assert!(stage_assets(&files, &vec![None, None, None], true).is_none());
    assert!(stage_assets(&files, &vec![None], false).is_none());
    assert!(stage_assets(&files, &vec![None, None], false).is_some());
}

#[test]
fn no_files_stage_no_assets() {
    let staged = stage_assets(&vec![], &vec![], true).unwrap();
    assert!(staged.is_empty());
}

#[test]
fn bytes_are_copied_as_they_are() {
    assert_eq!(copy_bytes(&vec![0, 255, 7]), vec![0, 255, 7]);
    assert_eq!(copy_bytes(&vec![]), Vec::<u8>::new());
}
