//! The project manifest: the small file that makes a directory a project.

use vstd::prelude::*;
use crate::document::{entries, parse, parsed, table_get, value_as_str, value_get, Item};
use crate::error::ErrorKind;

verus! {

/// File name of the manifest, relative to the project root.
pub const MANIFEST_FILE: &'static str = "carton.toml";

/// What a project builds.
#[derive(Clone, Copy, PartialEq, Eq, Debug, Structural)]
pub enum ProjectKind {
    /// An application with an executable artifact.
    Binary,
    /// A library with a public header and tests.
    Library,
}

/// The fields of a manifest that the orchestrator reads.
#[derive(Clone, Debug)]
pub struct ProjectManifest {
    pub name: String,
    pub kind: ProjectKind,
}

/// A manifest as a mathematical value.
pub struct ManifestView {
    pub name: Seq<char>,
    pub kind: ProjectKind,
}

impl View for ProjectManifest {
    type V = ManifestView;

    open spec fn view(&self) -> ManifestView {
        ManifestView { name: self.name@, kind: self.kind }
    }
}

/// The two manifest entries as they were found in a document: the text of
/// each where it is present and a string, `None` otherwise.
#[derive(Clone, Debug)]
pub struct ManifestFields {
    pub name: Option<String>,
    pub kind: Option<String>,
}

/// Manifest entries as a mathematical value.
pub struct FieldsView {
    pub name: Option<Seq<char>>,
    pub kind: Option<Seq<char>>,
}

impl View for ManifestFields {
    type V = FieldsView;

    open spec fn view(&self) -> FieldsView {
        FieldsView { name: self.name.deep_view(), kind: self.kind.deep_view() }
    }
}

/// The text stored under `key`, where the table has the key with a string.
pub open spec fn text_at(table: Map<Seq<char>, Item>, key: Seq<char>) -> Option<Seq<char>> {
    if table.contains_key(key) {
        match table[key] {
            Item::Text(text) => Some(text),
            _ => None,
        }
    } else {
        None
    }
}

/// The manifest entries of a document: `name` and `type` of its `project`
/// table. A document without such a table has neither.
pub open spec fn fields_of(doc: Map<Seq<char>, Item>) -> FieldsView {
    if doc.contains_key("project"@) {
        match doc["project"@] {
            Item::Table(project) => FieldsView {
                name: text_at(project, "name"@),
                kind: text_at(project, "type"@),
            },
            _ => FieldsView { name: None, kind: None },
        }
    } else {
        FieldsView { name: None, kind: None }
    }
}

/// The kind that a manifest's `type` text stands for.
pub open spec fn kind_of(text: Seq<char>) -> Option<ProjectKind> {
    if text == "bin"@ {
        Some(ProjectKind::Binary)
    } else if text == "lib"@ {
        Some(ProjectKind::Library)
    } else {
        None
    }
}

/// The manifest that the entries make, or the reason they make none. A
/// missing name is reported before anything about the type.
pub open spec fn manifest_from(fields: FieldsView) -> Result<ManifestView, ErrorKind> {
    match (fields.name, fields.kind) {
        (Some(name), Some(kind)) => match kind_of(kind) {
            Some(kind) => Ok(ManifestView { name, kind }),
            None => Err(ErrorKind::UnsupportedKind),
        },
        _ => Err(ErrorKind::MalformedManifest),
    }
}

/// Whether manifest contents, `None` standing for a missing file, make the
/// directory a project: the file is there and parses.
pub open spec fn is_project_text(contents: Option<Seq<char>>) -> bool {
    contents matches Some(text) && parsed(text) is Some
}

/// The manifest read from the contents of the manifest file, `None`
/// standing for a missing file.
pub open spec fn manifest_of(contents: Option<Seq<char>>) -> Result<ManifestView, ErrorKind> {
    match contents {
        Some(text) => match parsed(text) {
            Some(doc) => manifest_from(fields_of(doc)),
            None => Err(ErrorKind::NotAProject),
        },
        None => Err(ErrorKind::NotAProject),
    }
}

/// What the outcome of reading a manifest stands for.
pub open spec fn reading(outcome: Result<ProjectManifest, ErrorKind>) -> Result<
    ManifestView,
    ErrorKind,
> {
    match outcome {
        Ok(manifest) => Ok(manifest@),
        Err(kind) => Err(kind),
    }
}

/// Whether two texts are the same.
pub fn same_text(a: &str, b: &str) -> (same: bool)
    ensures
        same == (a@ == b@),
{
    a.to_owned() == b.to_owned()
}

/// Reads the kind off a manifest's `type` text.
pub fn parse_kind(text: &str) -> (kind: Option<ProjectKind>)
    ensures
        kind == kind_of(text@),
{
    if same_text(text, "bin") {
        Some(ProjectKind::Binary)
    } else if same_text(text, "lib") {
        Some(ProjectKind::Library)
    } else {
        None
    }
}

/// Builds the manifest out of the entries found in a document.
pub fn manifest_from_fields(fields: &ManifestFields) -> (outcome: Result<ProjectManifest, ErrorKind>)
    ensures
        reading(outcome) == manifest_from(fields@),
{
    match (&fields.name, &fields.kind) {
        (Some(name), Some(kind)) => match parse_kind(kind.as_str()) {
            Some(kind) => Ok(ProjectManifest { name: name.clone(), kind }),
            None => Err(ErrorKind::UnsupportedKind),
        },
        _ => Err(ErrorKind::MalformedManifest),
    }
}

/// Looks the manifest entries up in a parsed document.
pub fn manifest_fields(doc: &toml::Table) -> (fields: ManifestFields)
    ensures
        fields@ == fields_of(entries(*doc)),
{
    match table_get(doc, "project") {
        Some(project) => {
            let name = match value_get(project, "name") {
                Some(value) => match value_as_str(value) {
                    Some(text) => Some(text.to_owned()),
                    None => None,
                },
                None => None,
            };
            let kind = match value_get(project, "type") {
                Some(value) => match value_as_str(value) {
                    Some(text) => Some(text.to_owned()),
                    None => None,
                },
                None => None,
            };
            ManifestFields { name, kind }
        },
        None => ManifestFields { name: None, kind: None },
    }
}

/// Whether the contents of the manifest file, `None` standing for a missing
/// file, make the directory a project.
pub fn is_project(contents: Option<&str>) -> (yes: bool)
    ensures
        yes == is_project_text(contents.deep_view()),
{
    match contents {
        Some(text) => parse(text).is_ok(),
        None => false,
    }
}

/// Reads the manifest from the contents of the manifest file, `None`
/// standing for a missing file.
pub fn read_manifest(contents: Option<&str>) -> (outcome: Result<ProjectManifest, ErrorKind>)
    ensures
        reading(outcome) == manifest_of(contents.deep_view()),
{
    match contents {
        Some(text) => match parse(text) {
            Ok(doc) => {
                let fields = manifest_fields(&doc);
                manifest_from_fields(&fields)
            },
            Err(_) => Err(ErrorKind::NotAProject),
        },
        None => Err(ErrorKind::NotAProject),
    }
}

} // verus!
