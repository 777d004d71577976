use chamber_agent::lens_store::{
    document_file_name, lens_directory, manifest, manifest_file_contents, manifest_file_name, validate, Manifest,
};

#[test]
fn sidecar_validation_matches_host_rules() {
    assert_eq!(validate("release-board", "Release Board", "layout", "<html></html>"), Ok(()));
    assert_eq!(
        validate("release-board", "Release Board", "   ", "<html></html>"),
        Err("Lens icon must use 1-32 characters".to_owned())
    );
}

#[test]
fn lens_files() {
    assert_eq!(
        manifest("Board", "layout"),
        Manifest {
            name: "Board".to_owned(),
            icon: "layout".to_owned(),
            view: "canvas".to_owned(),
            source: "index.html".to_owned()
        }
    );
    assert_eq!(lens_directory("board"), vec![".github".to_owned(), "lens".to_owned(), "board".to_owned()]);
    assert_eq!(document_file_name(), "index.html");
    assert_eq!(manifest_file_name(), "view.json");
    assert_eq!(manifest_file_contents(b"{}".to_vec()), b"{}\n".to_vec());
}
