//! Checks of each field of a request against the reference data and the
//! file-name rules.
use vstd::prelude::*;
use vstd::string::*;
use crate::error::ScriptError;
use crate::tables::{api_version, category_key, is_api_version, is_category_key, is_module_key, module_key};
use crate::text::{contains_char, fold_case, lowercase, same_text};

verus! {

/// What `Path::extension` yields, as text, for a path written as text.
pub uninterp spec fn extension_of(path: Seq<char>) -> Option<Seq<char>>;

/// What `Path::parent` yields, as text, for a path written as text.
pub uninterp spec fn parent_of(path: Seq<char>) -> Option<Seq<char>>;

/// Relies on `std::path::Path::extension`: the part of the last component after
/// its final `.`, when there is one; it depends on the text of the path alone.
#[verifier::external_body]
fn path_extension(path: &str) -> (r: Option<&str>)
    ensures
        extension_of(path@) == (match r {
            Some(e) => Some(e@),
            None => None,
        }),
{
    std::path::Path::new(path).extension().and_then(|e| e.to_str())
}

/// Relies on `std::path::Path::parent`: the path without its last component, when
/// it has one; it depends on the text of the path alone.
#[verifier::external_body]
fn path_parent(path: &str) -> (r: Option<&str>)
    ensures
        parent_of(path@) == (match r {
            Some(p) => Some(p@),
            None => None,
        }),
{
    std::path::Path::new(path).parent().and_then(|p| p.to_str())
}

/// Relies on `std::path::Path::is_dir`: whether a directory is found at the path at
/// the moment of the call. Nothing is promised of the answer.
#[verifier::external_body]
fn dir_exists(path: &str) -> (r: bool) {
    std::path::Path::new(path).is_dir()
}

/// The extension of a path, or a note that it has none.
pub fn validate_file(path: &str) -> (r: &str)
    ensures
        r@ == (match extension_of(path@) {
            Some(e) => e,
            None => "File name missing extension"@,
        }),
{
    match path_extension(path) {
        Some(e) => e,
        None => "File name missing extension",
    }
}

/// Whether `path` has exactly the extension `ext`.
fn has_extension(path: &str, ext: &str) -> (r: bool)
    ensures
        r == (extension_of(path@) == Some(ext@)),
{
    match path_extension(path) {
        Some(e) => same_text(e, ext),
        None => false,
    }
}

/// Whether a path holds a directory separator.
pub open spec fn has_separator(path: Seq<char>) -> bool {
    path.contains('/') || path.contains('\\')
}

/// Whether checking a target path needs to look for its parent directory.
pub open spec fn probes_parent(path: Seq<char>) -> bool {
    extension_of(path) == Some("js"@) && has_separator(path) && parent_of(path) is Some
}

/// The verdict on a target path, given whether its parent directory exists.
pub open spec fn file_name_check(path: Seq<char>, parent_is_dir: bool) -> Result<(), ScriptError> {
    if extension_of(path) != Some("js"@) {
        Err(ScriptError::InvalidFileExtension)
    } else if has_separator(path) && parent_of(path) is Some && !parent_is_dir {
        Err(ScriptError::ParentDirectoryMissing)
    } else {
        Ok(())
    }
}

/// Decides on a target path, given whether its parent directory exists.
pub fn file_name_verdict(name: &str, parent_is_dir: bool) -> (r: Result<(), ScriptError>)
    ensures
        r == file_name_check(name@, parent_is_dir),
{
    if !has_extension(name, "js") {
        return Err(ScriptError::InvalidFileExtension);
    }
    if contains_char(name, '/') || contains_char(name, '\\') {
        if let Some(_) = path_parent(name) {
            if !parent_is_dir {
                return Err(ScriptError::ParentDirectoryMissing);
            }
        }
    }
    Ok(())
}

/// Checks a target path: it must have the `js` extension, and where it names a
/// parent directory, that directory must exist.
pub fn validate_file_name(name: String) -> (r: Result<(), ScriptError>)
    ensures
        !probes_parent(name@) ==> r == file_name_check(name@, true),
        probes_parent(name@) ==> r == file_name_check(name@, true) || r == file_name_check(
            name@,
            false,
        ),
{
    let mut parent_is_dir = true;
    if has_extension(name.as_str(), "js") && (contains_char(name.as_str(), '/') || contains_char(
        name.as_str(),
        '\\',
    )) {
        if let Some(parent) = path_parent(name.as_str()) {
            parent_is_dir = dir_exists(parent);
        }
    }
    file_name_verdict(name.as_str(), parent_is_dir)
}

/// The verdict on a copyright file path: none given, or one with the `txt` extension.
pub open spec fn copyright_file_check(path: Seq<char>) -> Result<(), ScriptError> {
    if path.len() == 0 || extension_of(path) == Some("txt"@) {
        Ok(())
    } else {
        Err(ScriptError::InvalidCopyrightFileType)
    }
}

/// Checks a copyright file path: empty, or a text file.
pub fn validate_copyright_file(name: String) -> (r: Result<(), ScriptError>)
    ensures
        r == copyright_file_check(name@),
{
    if name.as_str().is_empty() {
        return Ok(());
    }
    let ext = validate_file(name.as_str());
    proof {
        reveal_strlit("File name missing extension");
        reveal_strlit("txt");
        assert("File name missing extension"@.len() == 27);
        assert("txt"@.len() == 3);
    }
    if !same_text(ext, "txt") {
        return Err(ScriptError::InvalidCopyrightFileType);
    }
    Ok(())
}

/// The verdict on a script category: none given, or a known one in any case.
pub open spec fn script_type_check(name: Seq<char>) -> Result<(), ScriptError> {
    if name.len() == 0 || category_key(fold_case(name)) {
        Ok(())
    } else {
        Err(ScriptError::InvalidScriptType)
    }
}

/// Checks a script category against the known categories, ignoring case.
pub fn validate_script_type(name: String) -> (r: Result<(), ScriptError>)
    ensures
        r == script_type_check(name@),
{
    if name.as_str().is_empty() {
        return Ok(());
    }
    let lower = lowercase(name.as_str());
    if is_category_key(lower.as_str()) {
        return Ok(());
    }
    Err(ScriptError::InvalidScriptType)
}

/// The verdict on an API version: one of the accepted versions, exactly.
pub open spec fn api_version_check(api: Seq<char>) -> Result<(), ScriptError> {
    if api_version(api) {
        Ok(())
    } else {
        Err(ScriptError::InvalidApiVersion)
    }
}

/// Checks an API version against the accepted versions.
pub fn validate_api_version(api: String) -> (r: Result<(), ScriptError>)
    ensures
        r == api_version_check(api@),
{
    if is_api_version(api.as_str()) {
        return Ok(());
    }
    Err(ScriptError::InvalidApiVersion)
}

/// Whether one entry of a module list is accepted: empty, or a known module in any case.
pub open spec fn module_entry_ok(name: Seq<char>) -> bool {
    name.len() == 0 || module_key(fold_case(name))
}

/// Checks one module name against the known modules, ignoring case.
pub fn validate_modules(name: String) -> (r: Result<(), ScriptError>)
    ensures
        module_entry_ok(name@) ==> r == Ok::<(), ScriptError>(()),
        !module_entry_ok(name@) ==> r == Err::<(), ScriptError>(ScriptError::InvalidModuleName(name)),
{
    if name.as_str().is_empty() {
        return Ok(());
    }
    let lower = lowercase(name.as_str());
    if !is_module_key(lower.as_str()) {
        return Err(ScriptError::InvalidModuleName(name));
    }
    Ok(())
}

/// Checks every entry of a module list; the first one refused is reported.
pub fn validate_module_list(modules: &[String]) -> (r: Result<(), ScriptError>)
    ensures
        r is Ok <==> forall|i: int| 0 <= i < modules@.len() ==> module_entry_ok(#[trigger] modules@[i]@),
        r is Err ==> exists|i: int|
            0 <= i < modules@.len() && !module_entry_ok(#[trigger] modules@[i]@) && (forall|j: int|
                0 <= j < i ==> module_entry_ok(#[trigger] modules@[j]@)) && r == Err::<
                (),
                ScriptError,
            >(ScriptError::InvalidModuleName(modules@[i])),
{
    let mut i: usize = 0;
    while i < modules.len()
        invariant
            i <= modules@.len(),
            forall|j: int| 0 <= j < i ==> module_entry_ok(#[trigger] modules@[j]@),
        decreases modules@.len() - i,
    {
        let checked = validate_modules(modules[i].clone());
        if checked.is_err() {
            return checked;
        }
        i = i + 1;
    }
    Ok(())
}

} // verus!
