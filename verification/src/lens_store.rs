use vstd::prelude::*;
use vstd::string::*;

use crate::lens::{check_lens, lens_verdict, matches_verdict};

verus! {

broadcast use vstd::string::group_string_axioms;

/// The `view.json` record that the sidecar writes beside a lens document.
#[derive(Debug, PartialEq)]
pub struct Manifest {
    pub name: String,
    pub icon: String,
    pub view: String,
    pub source: String,
}

/// A lens as the sidecar holds it.
#[derive(Debug, PartialEq)]
pub struct LensSnapshot {
    pub id: String,
    pub name: String,
    pub icon: String,
    pub html: String,
}

/// Checks a lens that the agent asks to write, rule by rule, before anything
/// touches the mind directory.
pub fn validate(id: &str, name: &str, icon: &str, html: &str) -> (r: Result<(), String>)
    ensures
        matches_verdict(r, lens_verdict(id@, name@, icon@, html@)),
{
    check_lens(id, name, icon, html)
}

/// The file name of a lens document inside its directory.
pub fn document_file_name() -> (n: &'static str)
    ensures
        n@ == "index.html"@,
{
    "index.html"
}

/// The file name of a lens manifest inside its directory.
pub fn manifest_file_name() -> (n: &'static str)
    ensures
        n@ == "view.json"@,
{
    "view.json"
}

/// The manifest of a lens: its name and icon, shown as a canvas whose source
/// is the lens document.
pub fn manifest(name: &str, icon: &str) -> (m: Manifest)
    ensures
        m.name@ == name@,
        m.icon@ == icon@,
        m.view@ == "canvas"@,
        m.source@ == "index.html"@,
{
    Manifest {
        name: name.to_owned(),
        icon: icon.to_owned(),
        view: "canvas".to_owned(),
        source: document_file_name().to_owned(),
    }
}

/// The path, below the mind root, of the directory that holds lens `id`:
/// `.github/lens/<id>`.
pub fn lens_directory(id: &str) -> (parts: Vec<String>)
    ensures
        parts@.len() == 3,
        parts@[0]@ == ".github"@,
        parts@[1]@ == "lens"@,
        parts@[2]@ == id@,
{
    let mut parts: Vec<String> = Vec::new();
    parts.push(".github".to_owned());
    parts.push("lens".to_owned());
    parts.push(id.to_owned());
    parts
}

/// The bytes of the manifest file: the serialised manifest and a final newline.
pub fn manifest_file_contents(serialized: Vec<u8>) -> (contents: Vec<u8>)
    ensures
        contents@ == serialized@.push(10u8),
{
    let mut contents = serialized;
    contents.push(10u8);
    contents
}

} // verus!
