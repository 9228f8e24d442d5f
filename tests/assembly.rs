use suitescript::{
    format_args, format_imports, generate_script, get_api_version, get_copyright,
    get_module_names, get_modules, get_script_type, map_module_to_name, map_script_to_name,
    render_script, ScriptError,
};

fn strings(items: &[&str]) -> Vec<String> {
    items.iter().map(|s| String::from(*s)).collect()
}

#[test]
fn test_format_imports() {
    assert_eq!(
        format_imports(&vec!["record".into(), "search".into()]),
        String::from("record',\n  'N/search")
    )
}

#[test]
fn test_format_args() {
    assert_eq!(
        format_args(&vec!["record".into(), "search".into(), "ui/dialog".into()]),
        String::from("record, search, uidialog")
    )
}

#[test]
fn test_get_mod_names() {
    assert_eq!(
        get_module_names(&vec![String::from("rEcOrD"), String::from("RECORDcontext")]),
        vec![String::from("record"), String::from("recordContext")]
    )
}

#[test]
fn test_map_script_name() {
    assert_eq!(map_script_to_name("mApReDuCe"), "MapReduce")
}

#[test]
fn category_spellings_for_any_case() {
    let cases = [
        ("MAPREDUCE", "MapReduce"),
        ("userEvent", "UserEvent"),
        ("scheduled", "Scheduled"),
        ("CLIENT", "Client"),
        ("SuiteLet", "Suitelet"),
        ("restlet", "RESTlet"),
        ("pOrTlEt", "Portlet"),
    ];
    for (input, shown) in cases {
        assert_eq!(map_script_to_name(input), shown);
    }
    assert_eq!(map_script_to_name("rest"), "");
    assert_eq!(map_script_to_name(""), "");
}

#[test]
fn script_type_lines() {
    assert_eq!(get_script_type("mapreduce"), " * @NScriptType MapReduceScript\n");
    assert_eq!(get_script_type("USEREVENT"), " * @NScriptType UserEventScript\n");
    assert_eq!(get_script_type("Scheduled"), " * @NScriptType ScheduledScript\n");
    assert_eq!(get_script_type("client"), " * @NScriptType ClientScript\n");
    assert_eq!(get_script_type("suitelet"), " * @NScriptType Suitelet\n");
    assert_eq!(get_script_type("PORTLET"), " * @NScriptType Portlet\n");
    assert_eq!(get_script_type("restlet"), " * @NScriptType RESTlet\n");
    assert_eq!(get_script_type(""), "");
}

#[test]
fn api_version_two_means_two_point_zero() {
    assert_eq!(get_api_version("2"), "2.0");
    assert_eq!(get_api_version("2.1"), "2.1");
    assert_eq!(get_api_version("2.x"), "2.x");
    assert_eq!(get_api_version("2.0"), "2.0");
}

#[test]
fn special_module_spellings() {
    assert_eq!(map_module_to_name("CERTIFICATECONTROL"), "certificateControl");
    assert_eq!(map_module_to_name("currentrecord"), "currentRecord");
    assert_eq!(map_module_to_name("KeyControl"), "keyControl");
    assert_eq!(map_module_to_name("suiteappinfo"), "suiteAppInfo");
    assert_eq!(map_module_to_name("ui/serverwidget"), "serverWidget");
    assert_eq!(map_module_to_name("UI/Dialog"), "ui/dialog");
    assert_eq!(map_module_to_name("SEARCH"), "search");
}

#[test]
fn normalising_twice_changes_nothing() {
    for name in ["record", "ui/serverwidget", "CurrentRecord", "task/accounting/recognition"] {
        let once = map_module_to_name(name);
        assert_eq!(map_module_to_name(&once), once);
    }
}

#[test]
fn single_module_imports_and_args() {
    assert_eq!(format_imports(&strings(&["record"])), "record");
    assert_eq!(format_args(&strings(&["record"])), "record");
    assert_eq!(format_imports(&[]), "");
    assert_eq!(format_args(&[]), "");
}

#[test]
fn args_lose_every_separator() {
    let names = strings(&["task/accounting/recognition", "https/clientcertificate"]);
    let args = format_args(&names);
    assert_eq!(args, "taskaccountingrecognition, httpsclientcertificate");
    assert!(!args.contains('/'));
}

#[test]
fn module_block_keeps_order() {
    assert_eq!(
        get_modules(&strings(&["search", "record", "ui/dialog"])),
        "  'N/search',\n  'N/record',\n  'N/ui/dialog',\n], (search, record, uidialog) => {\n"
    );
}

#[test]
fn no_modules_gives_empty_argument_list() {
    assert_eq!(get_modules(&strings(&[""])), "], () => {\n");
    assert_eq!(get_modules(&[]), "], () => {\n");
}

#[test]
fn server_widget_import_and_argument() {
    let block = get_modules(&strings(&["ui/serverwidget", "ui/message"]));
    assert_eq!(
        block,
        "  'N/serverWidget',\n  'N/ui/message',\n], (serverWidget, uimessage) => {\n"
    );
}

#[test]
fn copyright_is_trimmed_and_followed_by_one_blank_line() {
    assert_eq!(
        get_copyright(Some("\n  /* (c) Example Co. */ \n\n")),
        "/* (c) Example Co. */\n\n"
    );
    assert_eq!(get_copyright(None), "");
}

#[test]
fn bare_script() {
    assert_eq!(
        render_script(None, "", "2.1", &strings(&[""])),
        "/**\n * @NApiVersion 2.1\n */\n\ndefine([\n], () => {\n\n});"
    );
}

#[test]
fn map_reduce_script_with_modules() {
    let text = render_script(None, "mapreduce", "2.1", &strings(&["record", "search"]));
    assert_eq!(
        text,
        "/**\n * @NScriptType MapReduceScript\n * @NApiVersion 2.1\n */\n\ndefine([\n  'N/record',\n  'N/search',\n], (record, search) => {\n\n});"
    );
    assert!(text.contains(" * @NScriptType MapReduceScript"));
    assert!(text.contains("  'N/record',\n  'N/search',"));
    assert!(text.contains("(record, search)"));
}

#[test]
fn script_with_copyright_and_category_only() {
    assert_eq!(
        render_script(Some("  /* mine */\n"), "Suitelet", "2", &strings(&[""])),
        "/* mine */\n\n/**\n * @NScriptType Suitelet\n * @NApiVersion 2.0\n */\n\ndefine([\n], () => {\n\n});"
    );
}

#[test]
fn generate_refuses_unknown_module() {
    assert_eq!(
        generate_script(None, "", "2.1", &strings(&["reecord"])),
        Err(ScriptError::InvalidModuleName(String::from("reecord")))
    );
}

#[test]
fn generate_checks_category_then_version() {
    assert_eq!(
        generate_script(None, "rest", "1", &strings(&["reecord"])),
        Err(ScriptError::InvalidScriptType)
    );
    assert_eq!(
        generate_script(None, "client", "1", &strings(&["reecord"])),
        Err(ScriptError::InvalidApiVersion)
    );
}

#[test]
fn generate_is_repeatable() {
    let modules = strings(&["Record", "ui/serverwidget"]);
    let first = generate_script(Some("(c)"), "CLIENT", "2", &modules);
    let second = generate_script(Some("(c)"), "CLIENT", "2", &modules);
    assert_eq!(first, second);
    assert_eq!(
        first,
        Ok(String::from(
            "(c)\n\n/**\n * @NScriptType ClientScript\n * @NApiVersion 2.0\n */\n\ndefine([\n  'N/record',\n  'N/serverWidget',\n], (record, serverWidget) => {\n\n});"
        ))
    );
}
