//! Case-insensitive normalisation of category and module names to the
//! spelling that appears in a generated file.
use vstd::prelude::*;
use vstd::string::*;
use crate::text::{fold_case, lowercase, same_text};

verus! {

/// The display spelling of a category key; empty for anything else.
pub open spec fn category_display(key: Seq<char>) -> Seq<char> {
    if key == "mapreduce"@ {
        "MapReduce"@
    } else if key == "userevent"@ {
        "UserEvent"@
    } else if key == "scheduled"@ {
        "Scheduled"@
    } else if key == "client"@ {
        "Client"@
    } else if key == "suitelet"@ {
        "Suitelet"@
    } else if key == "restlet"@ {
        "RESTlet"@
    } else if key == "portlet"@ {
        "Portlet"@
    } else {
        Seq::empty()
    }
}

/// The display spelling of a lowercase module name: a camel-cased form for a
/// few modules, the name itself for all others.
pub open spec fn module_display(key: Seq<char>) -> Seq<char> {
    if key == "certificatecontrol"@ {
        "certificateControl"@
    } else if key == "currentrecord"@ {
        "currentRecord"@
    } else if key == "keycontrol"@ {
        "keyControl"@
    } else if key == "recordcontext"@ {
        "recordContext"@
    } else if key == "suiteappinfo"@ {
        "suiteAppInfo"@
    } else if key == "serverwidget"@ || key == "ui/serverwidget"@ {
        "serverWidget"@
    } else {
        key
    }
}

/// The display spellings of a list of module names, in the same order.
pub open spec fn module_displays(names: Seq<Seq<char>>) -> Seq<Seq<char>> {
    names.map_values(|n: Seq<char>| module_display(fold_case(n)))
}

/// The character sequences held by a list of strings.
pub open spec fn views(items: Seq<String>) -> Seq<Seq<char>> {
    items.map_values(|s: String| s@)
}

/// The display spelling of an already lowercased category key.
pub fn category_name(key: &str) -> (r: &'static str)
    ensures
        r@ == category_display(key@),
{
    if same_text(key, "mapreduce") {
        "MapReduce"
    } else if same_text(key, "userevent") {
        "UserEvent"
    } else if same_text(key, "scheduled") {
        "Scheduled"
    } else if same_text(key, "client") {
        "Client"
    } else if same_text(key, "suitelet") {
        "Suitelet"
    } else if same_text(key, "restlet") {
        "RESTlet"
    } else if same_text(key, "portlet") {
        "Portlet"
    } else {
        let empty = "";
        proof {
            reveal_strlit("");
        }
        assert(empty@ =~= Seq::<char>::empty());
        empty
    }
}

/// Converts a script category, in any case, to the spelling NetSuite uses;
/// empty for a name that is no category.
pub fn map_script_to_name(stype: &str) -> (r: &'static str)
    ensures
        r@ == category_display(fold_case(stype@)),
{
    let lower = lowercase(stype);
    category_name(lower.as_str())
}

/// The display spelling of an already lowercased module name.
pub fn module_name(key: String) -> (r: String)
    ensures
        r@ == module_display(key@),
{
    if same_text(key.as_str(), "certificatecontrol") {
        String::from_str("certificateControl")
    } else if same_text(key.as_str(), "currentrecord") {
        String::from_str("currentRecord")
    } else if same_text(key.as_str(), "keycontrol") {
        String::from_str("keyControl")
    } else if same_text(key.as_str(), "recordcontext") {
        String::from_str("recordContext")
    } else if same_text(key.as_str(), "suiteappinfo") {
        String::from_str("suiteAppInfo")
    } else if same_text(key.as_str(), "serverwidget") || same_text(key.as_str(), "ui/serverwidget") {
        String::from_str("serverWidget")
    } else {
        key
    }
}

/// Converts a module name, in any case, to the spelling NetSuite uses.
pub fn map_module_to_name(module: &str) -> (r: String)
    ensures
        r@ == module_display(fold_case(module@)),
{
    module_name(lowercase(module))
}

/// Converts each module name of a list to its display spelling, keeping the order.
pub fn get_module_names(modules: &[String]) -> (r: Vec<String>)
    ensures
        views(r@) == module_displays(views(modules@)),
{
    let mut out: Vec<String> = Vec::new();
    let mut i: usize = 0;
    while i < modules.len()
        invariant
            i <= modules@.len(),
            views(out@) =~= module_displays(views(modules@.subrange(0, i as int))),
        decreases modules@.len() - i,
    {
        let name = map_module_to_name(modules[i].as_str());
        let ghost before = out@;
        out.push(name);
        let ghost done = modules@.subrange(0, i as int);
        assert(modules@.subrange(0, i + 1) =~= done.push(modules@[i as int]));
        assert(views(done.push(modules@[i as int])) =~= views(done).push(modules@[i as int]@));
        assert(views(out@) =~= views(before).push(name@));
        i = i + 1;
    }
    assert(modules@ =~= modules@.subrange(0, modules@.len() as int));
    out
}

} // verus!
