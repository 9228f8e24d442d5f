//! Assembly of a generated script's text from normalised pieces.
use vstd::prelude::*;
use vstd::string::*;
use crate::normalize::{category_display, get_module_names, map_script_to_name, module_displays, views};
use crate::error::ScriptError;
use crate::text::{fold_case, same_text};
use crate::validate::{
    api_version_check, module_entry_ok, script_type_check, validate_api_version,
    validate_module_list, validate_script_type,
};

verus! {

/// The parts joined in order, with `sep` between neighbours.
pub open spec fn joined(parts: Seq<Seq<char>>, sep: Seq<char>) -> Seq<char>
    decreases parts.len(),
{
    if parts.len() == 0 {
        Seq::empty()
    } else if parts.len() == 1 {
        parts[0]
    } else {
        joined(parts.drop_last(), sep) + sep + parts.last()
    }
}

/// `s` with every `/` taken out.
pub open spec fn strip_slashes(s: Seq<char>) -> Seq<char>
    decreases s.len(),
{
    if s.len() == 0 {
        s
    } else if s.last() == '/' {
        strip_slashes(s.drop_last())
    } else {
        strip_slashes(s.drop_last()).push(s.last())
    }
}

/// What stands between two module paths of the import list.
pub open spec fn import_separator() -> Seq<char> {
    "',\n  'N/"@
}

/// The argument list for the given module display names.
pub open spec fn args_text(names: Seq<Seq<char>>) -> Seq<char> {
    joined(names.map_values(|n: Seq<char>| strip_slashes(n)), ", "@)
}

/// Whether a module list asks for no modules: no entry, or one empty entry.
pub open spec fn no_modules(names: Seq<Seq<char>>) -> bool {
    names.len() == 0 || (names.len() == 1 && names[0].len() == 0)
}

/// The dependency list and callback head of the module definition.
pub open spec fn modules_block(names: Seq<Seq<char>>) -> Seq<char> {
    if no_modules(names) {
        "], () => {\n"@
    } else {
        let shown = module_displays(names);
        "  'N/"@ + joined(shown, import_separator()) + "',\n"@ + "], ("@ + args_text(shown)
            + ") => {\n"@
    }
}

/// The API version written into the header: `2` stands for `2.0`.
pub open spec fn resolved_version(version: Seq<char>) -> Seq<char> {
    if version == "2"@ {
        "2.0"@
    } else {
        version
    }
}

/// Whether a category, by display spelling, is an entry point whose tag ends in `Script`.
pub open spec fn runnable_category(shown: Seq<char>) -> bool {
    shown == "MapReduce"@ || shown == "UserEvent"@ || shown == "Scheduled"@ || shown
        == "Client"@
}

/// The header line that tags the category with the given display spelling.
pub open spec fn script_type_line(shown: Seq<char>) -> Seq<char> {
    if shown.len() == 0 {
        Seq::empty()
    } else if runnable_category(shown) {
        " * @NScriptType "@ + shown + "Script\n"@
    } else {
        " * @NScriptType "@ + shown + "\n"@
    }
}

/// What `str::trim` returns.
pub uninterp spec fn trim_of(s: Seq<char>) -> Seq<char>;

/// Relies on `str::trim`: the text without its leading and trailing white space;
/// the result depends on the characters alone.
#[verifier::external_body]
fn trim_text(s: &str) -> (r: &str)
    ensures
        r@ == trim_of(s@),
{
    s.trim()
}

/// The copyright block: the trimmed text and one blank line, or nothing.
pub open spec fn copyright_block(contents: Option<Seq<char>>) -> Seq<char> {
    match contents {
        Some(c) => trim_of(c) + "\n\n"@,
        None => Seq::empty(),
    }
}

/// The characters of an optional string.
pub open spec fn opt_view(s: Option<&str>) -> Option<Seq<char>> {
    match s {
        Some(t) => Some(t@),
        None => None,
    }
}

/// The whole text of a generated script.
pub open spec fn script_text(
    copyright: Option<Seq<char>>,
    script_type: Seq<char>,
    api_version: Seq<char>,
    modules: Seq<Seq<char>>,
) -> Seq<char> {
    copyright_block(copyright) + "/**\n"@ + script_type_line(category_display(fold_case(script_type)))
        + " * @NApiVersion "@ + resolved_version(api_version) + "\n */\n\ndefine([\n"@
        + modules_block(modules) + "\n});"@
}

/// The API version to write into the header.
pub fn get_api_version(version: &str) -> (r: String)
    ensures
        r@ == resolved_version(version@),
{
    if same_text(version, "2") {
        String::from_str("2.0")
    } else {
        String::from_str(version)
    }
}

/// The header line tagging the script category, or nothing where there is no category.
pub fn get_script_type(script_type: &str) -> (r: String)
    ensures
        r@ == script_type_line(category_display(fold_case(script_type@))),
{
    let shown = map_script_to_name(script_type);
    if shown.is_empty() {
        return String::new();
    }
    let mut line = String::from_str(" * @NScriptType ");
    line.append(shown);
    if same_text(shown, "MapReduce") || same_text(shown, "UserEvent") || same_text(shown, "Scheduled")
        || same_text(shown, "Client") {
        line.append("Script\n");
    } else {
        line.append("\n");
    }
    line
}

/// Joins the parts with `sep` between neighbours.
fn join_with(parts: &[String], sep: &str) -> (r: String)
    ensures
        r@ == joined(views(parts@), sep@),
{
    let mut out = String::new();
    let mut i: usize = 0;
    while i < parts.len()
        invariant
            i <= parts@.len(),
            out@ == joined(views(parts@.subrange(0, i as int)), sep@),
        decreases parts@.len() - i,
    {
        let ghost done = parts@.subrange(0, i as int);
        let ghost next = parts@.subrange(0, i + 1);
        assert(next.drop_last() =~= done);
        assert(views(next).drop_last() =~= views(done));
        if i > 0 {
            out.append(sep);
        }
        out.append(parts[i].as_str());
        assert(views(next).last() == parts@[i as int]@);
        i = i + 1;
    }
    assert(parts@.subrange(0, parts@.len() as int) =~= parts@);
    out
}

/// Formats module display names as the body of the import list: joined so that,
/// between the surrounding quotes, each stands on its own line after `N/`.
pub fn format_imports(modules: &[String]) -> (r: String)
    ensures
        r@ == joined(views(modules@), import_separator()),
{
    join_with(modules, "',\n  'N/")
}

/// `s` with every `/` taken out.
pub fn strip_separators(s: &str) -> (r: String)
    ensures
        r@ == strip_slashes(s@),
{
    let n = s.unicode_len();
    let mut out = String::new();
    let mut i: usize = 0;
    while i < n
        invariant
            n == s@.len(),
            i <= n,
            out@ == strip_slashes(s@.subrange(0, i as int)),
        decreases n - i,
    {
        let ghost next = s@.subrange(0, i + 1);
        assert(next.drop_last() =~= s@.subrange(0, i as int));
        assert(next.last() == s@[i as int]);
        if s.get_char(i) != '/' {
            out.append(s.substring_char(i, i + 1));
            assert(s@.subrange(i as int, i + 1) =~= seq![s@[i as int]]);
        }
        i = i + 1;
    }
    assert(s@.subrange(0, n as int) =~= s@);
    out
}

/// Formats module display names as an argument list: each without its `/`
/// characters, joined with `, `.
pub fn format_args(modules: &[String]) -> (r: String)
    ensures
        r@ == args_text(views(modules@)),
{
    let mut cleaned: Vec<String> = Vec::new();
    let mut i: usize = 0;
    while i < modules.len()
        invariant
            i <= modules@.len(),
            views(cleaned@) =~= views(modules@.subrange(0, i as int)).map_values(
                |n: Seq<char>| strip_slashes(n),
            ),
        decreases modules@.len() - i,
    {
        let part = strip_separators(modules[i].as_str());
        let ghost before = cleaned@;
        cleaned.push(part);
        assert(views(cleaned@) =~= views(before).push(part@));
        assert(views(modules@.subrange(0, i + 1)) =~= views(modules@.subrange(0, i as int)).push(
            modules@[i as int]@,
        ));
        i = i + 1;
    }
    assert(modules@.subrange(0, modules@.len() as int) =~= modules@);
    join_with(cleaned.as_slice(), ", ")
}

/// The dependency list and callback head for the given module names: one import
/// line per module in the given order, then the argument list.
pub fn get_modules(modules: &[String]) -> (r: String)
    ensures
        r@ == modules_block(views(modules@)),
{
    if modules.len() == 0 || (modules.len() == 1 && modules[0].as_str().is_empty()) {
        return String::from_str("], () => {\n");
    }
    let names = get_module_names(modules);
    let mut out = String::from_str("  'N/");
    out.append(format_imports(names.as_slice()).as_str());
    out.append("',\n");
    out.append("], (");
    out.append(format_args(names.as_slice()).as_str());
    out.append(") => {\n");
    out
}

/// The copyright block for the given file contents, or nothing where there is no file.
pub fn get_copyright(contents: Option<&str>) -> (r: String)
    ensures
        r@ == copyright_block(opt_view(contents)),
{
    match contents {
        Some(text) => {
            let mut out = String::from_str(trim_text(text));
            out.append("\n\n");
            out
        },
        None => String::new(),
    }
}

/// The whole text of a script from already checked values.
pub fn render_script(
    copyright: Option<&str>,
    script_type: &str,
    api_version: &str,
    modules: &[String],
) -> (r: String)
    ensures
        r@ == script_text(opt_view(copyright), script_type@, api_version@, views(modules@)),
{
    let mut out = get_copyright(copyright);
    out.append("/**\n");
    out.append(get_script_type(script_type).as_str());
    out.append(" * @NApiVersion ");
    out.append(get_api_version(api_version).as_str());
    out.append("\n */\n\ndefine([\n");
    out.append(get_modules(modules).as_str());
    out.append("\n});");
    out
}

/// Checks the category, the API version and the module list, in that order, and
/// assembles the script text from them when all are accepted.
pub fn generate_script(
    copyright: Option<&str>,
    script_type: &str,
    api_version: &str,
    modules: &[String],
) -> (r: Result<String, ScriptError>)
    ensures
        script_type_check(script_type@) is Err ==> r == Err::<String, ScriptError>(
            ScriptError::InvalidScriptType,
        ),
        script_type_check(script_type@) is Ok && api_version_check(api_version@) is Err ==> r
            == Err::<String, ScriptError>(ScriptError::InvalidApiVersion),
        r is Ok <==> script_type_check(script_type@) is Ok && api_version_check(api_version@) is Ok
            && forall|i: int| 0 <= i < modules@.len() ==> module_entry_ok(#[trigger] modules@[i]@),
        match r {
            Ok(text) => text@ == script_text(
                opt_view(copyright),
                script_type@,
                api_version@,
                views(modules@),
            ),
            Err(ScriptError::InvalidModuleName(name)) => exists|i: int|
                0 <= i < modules@.len() && !module_entry_ok(#[trigger] modules@[i]@) && (forall|
                    j: int,
                | 0 <= j < i ==> module_entry_ok(#[trigger] modules@[j]@)) && name == modules@[i],
            Err(e) => e == ScriptError::InvalidScriptType || e == ScriptError::InvalidApiVersion,
        },
{
    validate_script_type(String::from_str(script_type))?;
    validate_api_version(String::from_str(api_version))?;
    validate_module_list(modules)?;
    Ok(render_script(copyright, script_type, api_version, modules))
}

} // verus!
