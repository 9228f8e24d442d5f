use suitescript::{
    validate_api_version, validate_copyright_file, validate_file, validate_file_name,
    validate_module_list, validate_modules, validate_script_type, ScriptError,
};

#[test]
fn test_valid_mod() {
    assert_eq!(validate_modules(String::from("record")), Ok(()));
}

#[test]
fn test_invalid_mod() {
    let r = validate_modules(String::from("reecord"));
    assert_eq!(r, Err(ScriptError::InvalidModuleName(String::from("reecord"))));
    assert_eq!(
        r.map_err(|e| e.message()),
        Err(String::from("Invalid module name reecord"))
    );
}

#[test]
fn test_valid_api() {
    assert_eq!(validate_api_version(String::from("2")), Ok(()));
}

#[test]
fn test_invalid_api() {
    assert_eq!(
        validate_api_version(String::from("1")).map_err(|e| e.message()),
        Err(String::from("Invalid API version"))
    );
}

#[test]
fn test_valid_script_type() {
    assert_eq!(validate_script_type(String::from("mapreduce")), Ok(()));
}

#[test]
fn test_invalid_script_type() {
    assert_eq!(
        validate_script_type(String::from("rest")).map_err(|e| e.message()),
        Err(String::from("Invalid script type"))
    );
}

#[test]
fn test_valid_file() {
    assert_eq!(validate_file("test.js"), "js");
}

#[test]
fn test_invalid_file() {
    assert_eq!(validate_file("test"), "File name missing extension");
}

#[test]
fn test_valid_copyright() {
    assert_eq!(
        validate_copyright_file(String::from("copyright.txt")),
        Ok(())
    );
}

#[test]
fn test_invalid_copyright() {
    assert_eq!(
        validate_copyright_file(String::from("copyright")).map_err(|e| e.message()),
        Err(String::from(
            "Invalid file type: copyright file must be a text file."
        ))
    );
}

#[test]
fn test_valid_script_file() {
    assert_eq!(validate_file_name(String::from("test.js")), Ok(()));
}

#[test]
fn test_invalid_script_file() {
    assert_eq!(
        validate_file_name(String::from("test")).map_err(|e| e.message()),
        Err(String::from(
            "Invalid file type: SuiteScript file must be a JavaScript file."
        ))
    );
}

#[test]
fn test_valid_script_parent_dir() {
    assert_eq!(validate_file_name(String::from("src/test.js")), Ok(()));
}

#[test]
fn test_invalid_script_parent_dir() {
    assert_eq!(
        validate_file_name(String::from("nonexistent/test.js")).map_err(|e| e.message()),
        Err(String::from("Parent directory does not exist"))
    );
}

#[test]
fn missing_parent_directory_is_its_own_error() {
    assert_eq!(
        validate_file_name(String::from("nonexistent/test.js")),
        Err(ScriptError::ParentDirectoryMissing)
    );
}

#[test]
fn extension_check_is_case_sensitive() {
    assert_eq!(
        validate_file_name(String::from("test.JS")),
        Err(ScriptError::InvalidFileExtension)
    );
    assert_eq!(
        validate_file_name(String::from("test.ts")),
        Err(ScriptError::InvalidFileExtension)
    );
}

#[test]
fn backslash_path_without_parent_check_still_needs_js() {
    assert_eq!(
        validate_file_name(String::from("dir\\test.txt")),
        Err(ScriptError::InvalidFileExtension)
    );
}

#[test]
fn extension_is_the_part_after_the_last_dot() {
    assert_eq!(validate_file("archive.tar.txt"), "txt");
    assert_eq!(validate_file("src/main.rs"), "rs");
    assert_eq!(validate_file(".hidden"), "File name missing extension");
}

#[test]
fn empty_copyright_path_is_accepted() {
    assert_eq!(validate_copyright_file(String::new()), Ok(()));
}

#[test]
fn copyright_file_must_be_text() {
    assert_eq!(
        validate_copyright_file(String::from("notice.md")),
        Err(ScriptError::InvalidCopyrightFileType)
    );
}

#[test]
fn empty_script_type_is_accepted() {
    assert_eq!(validate_script_type(String::new()), Ok(()));
}

#[test]
fn script_type_ignores_case() {
    for name in ["MapReduce", "USEREVENT", "Scheduled", "cLiEnT", "Suitelet", "PORTLET", "RESTlet"] {
        assert_eq!(validate_script_type(String::from(name)), Ok(()), "{}", name);
    }
    assert_eq!(
        validate_script_type(String::from("mapreducer")),
        Err(ScriptError::InvalidScriptType)
    );
}

#[test]
fn api_versions_are_matched_exactly() {
    for v in ["2.1", "2", "2.x", "2.0"] {
        assert_eq!(validate_api_version(String::from(v)), Ok(()), "{}", v);
    }
    assert_eq!(
        validate_api_version(String::from("2.X")),
        Err(ScriptError::InvalidApiVersion)
    );
    assert_eq!(
        validate_api_version(String::new()),
        Err(ScriptError::InvalidApiVersion)
    );
}

#[test]
fn module_names_ignore_case() {
    assert_eq!(validate_modules(String::from("UI/ServerWidget")), Ok(()));
    assert_eq!(validate_modules(String::from("Task/Accounting/Recognition")), Ok(()));
    assert_eq!(validate_modules(String::new()), Ok(()));
}

#[test]
fn module_list_reports_first_unknown_name_as_written() {
    let list = vec![
        String::from("record"),
        String::from("Serch"),
        String::from("reecord"),
    ];
    assert_eq!(
        validate_module_list(&list),
        Err(ScriptError::InvalidModuleName(String::from("Serch")))
    );
    let short = vec![String::from("record"), String::from("N")];
    assert_eq!(
        validate_module_list(&short),
        Err(ScriptError::InvalidModuleName(String::from("N")))
    );
    let fine = vec![String::from("RECORD"), String::from("search")];
    assert_eq!(validate_module_list(&fine), Ok(()));
    assert_eq!(validate_module_list(&[]), Ok(()));
}

#[test]
fn every_error_has_its_message() {
    assert_eq!(
        ScriptError::InvalidFileExtension.message(),
        "Invalid file type: SuiteScript file must be a JavaScript file."
    );
    assert_eq!(
        ScriptError::ParentDirectoryMissing.message(),
        "Parent directory does not exist"
    );
    assert_eq!(ScriptError::InvalidScriptType.message(), "Invalid script type");
    assert_eq!(ScriptError::InvalidApiVersion.message(), "Invalid API version");
    assert_eq!(
        ScriptError::InvalidModuleName(String::from("x")).message(),
        "Invalid module name x"
    );
    assert_eq!(
        ScriptError::InvalidCopyrightFileType.message(),
        "Invalid file type: copyright file must be a text file."
    );
    assert_eq!(ScriptError::CopyrightReadFailure.message(), "Failed to read file");
}
