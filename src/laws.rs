//! General properties of the normaliser and the assembler.
use vstd::prelude::*;
use crate::assemble::{args_text, import_separator, joined, modules_block, no_modules, script_text, strip_slashes};
use crate::normalize::{category_display, module_display, module_displays};
use crate::tables::{category_key, module_key};
use crate::text::{ascii_lower, ascii_lower_char, fold_case};
use crate::validate::script_type_check;
use crate::error::ScriptError;
use vstd::utf8::is_ascii_chars;

verus! {

/// One line of the import list.
pub open spec fn import_line(shown: Seq<char>) -> Seq<char> {
    "  'N/"@ + shown + "',\n"@
}

/// The import lines for the given display names, one per name, in order.
pub open spec fn import_lines(names: Seq<Seq<char>>) -> Seq<char>
    decreases names.len(),
{
    if names.len() == 0 {
        Seq::empty()
    } else {
        import_lines(names.drop_last()) + import_line(names.last())
    }
}

proof fn lemma_joined_imports(names: Seq<Seq<char>>)
    requires
        names.len() > 0,
    ensures
        "  'N/"@ + joined(names, import_separator()) + "',\n"@ == import_lines(names),
    decreases names.len(),
{
    reveal_strlit("  'N/");
    reveal_strlit("',\n");
    reveal_strlit("',\n  'N/");
    if names.len() == 1 {
        assert(import_lines(names.drop_last()) =~= Seq::empty());
        assert("  'N/"@ + joined(names, import_separator()) + "',\n"@ =~= import_lines(names));
    } else {
        lemma_joined_imports(names.drop_last());
        assert(import_separator() =~= "',\n"@ + "  'N/"@);
        assert("  'N/"@ + joined(names, import_separator()) + "',\n"@ =~= import_lines(names));
    }
}

/// Every requested module, in the order given, gets an import line of its own:
/// two spaces of indent, then its display name under `N/` in quotes.
pub proof fn law_import_lines(names: Seq<Seq<char>>)
    requires
        !no_modules(names),
    ensures
        modules_block(names) == import_lines(module_displays(names)) + "], ("@ + args_text(
            module_displays(names),
        ) + ") => {\n"@,
{
    let shown = module_displays(names);
    lemma_joined_imports(shown);
    assert(modules_block(names) =~= import_lines(shown) + "], ("@ + args_text(shown)
        + ") => {\n"@);
}

proof fn lemma_strip_has_no_slash(s: Seq<char>)
    ensures
        !strip_slashes(s).contains('/'),
    decreases s.len(),
{
    if s.len() > 0 {
        lemma_strip_has_no_slash(s.drop_last());
        let rest = strip_slashes(s.drop_last());
        if s.last() != '/' {
            assert forall|i: int| 0 <= i < rest.len() + 1 implies rest.push(s.last())[i] != '/' by {
                if i < rest.len() {
                    assert(rest.push(s.last())[i] == rest[i]);
                }
            }
        }
    }
}

proof fn lemma_joined_has_no_slash(parts: Seq<Seq<char>>, sep: Seq<char>)
    requires
        !sep.contains('/'),
        forall|i: int| 0 <= i < parts.len() ==> !(#[trigger] parts[i]).contains('/'),
    ensures
        !joined(parts, sep).contains('/'),
    decreases parts.len(),
{
    if parts.len() > 1 {
        lemma_joined_has_no_slash(parts.drop_last(), sep);
        let head = joined(parts.drop_last(), sep);
        let last = parts.last();
        assert(!last.contains('/'));
        assert forall|i: int| 0 <= i < (head + sep + last).len() implies (head + sep + last)[i]
            != '/' by {
            if i < head.len() {
                assert((head + sep + last)[i] == head[i]);
            } else if i < head.len() + sep.len() {
                assert((head + sep + last)[i] == sep[i - head.len()]);
            } else {
                assert((head + sep + last)[i] == last[i - head.len() - sep.len()]);
            }
        }
    } else if parts.len() == 1 {
        assert(!parts[0].contains('/'));
    }
}

/// The argument list holds no `/`: every separator is taken out of each name
/// before the names are joined with `, `.
pub proof fn law_args_have_no_slash(names: Seq<Seq<char>>)
    ensures
        !args_text(names).contains('/'),
{
    reveal_strlit(", ");
    let stripped = names.map_values(|n: Seq<char>| strip_slashes(n));
    assert forall|i: int| 0 <= i < stripped.len() implies !(#[trigger] stripped[i]).contains('/') by {
        lemma_strip_has_no_slash(names[i]);
    }
    assert forall|i: int| 0 <= i < ", "@.len() implies ", "@[i] != '/' by {}
    lemma_joined_has_no_slash(stripped, ", "@);
}

/// The same request always gives the same text, character for character.
pub proof fn law_same_request_same_text(
    copyright: Option<Seq<char>>,
    script_type: Seq<char>,
    api_version: Seq<char>,
    modules: Seq<Seq<char>>,
    copyright_again: Option<Seq<char>>,
    script_type_again: Seq<char>,
    api_version_again: Seq<char>,
    modules_again: Seq<Seq<char>>,
)
    requires
        copyright_again == copyright,
        script_type_again == script_type,
        api_version_again == api_version,
        modules_again == modules,
    ensures
        script_text(copyright, script_type, api_version, modules) == script_text(
            copyright_again,
            script_type_again,
            api_version_again,
            modules_again,
        ),
{
}

proof fn lemma_ascii_preimage(s: Seq<char>, k: Seq<char>)
    requires
        ascii_lower(s) == k,
        is_ascii_chars(k),
    ensures
        is_ascii_chars(s),
{
    assert forall|i: int| 0 <= i < s.len() implies '\0' <= #[trigger] s[i] <= '\u{7f}' by {
        assert(ascii_lower(s)[i] == ascii_lower_char(s[i]));
        assert('\0' <= k[i] <= '\u{7f}');
    }
}

/// No letter of `s` is an ASCII capital.
pub open spec fn no_capitals(s: Seq<char>) -> bool {
    forall|i: int| 0 <= i < s.len() ==> !('A' <= #[trigger] s[i] && s[i] <= 'Z')
}

proof fn lemma_lower_keeps(s: Seq<char>)
    requires
        no_capitals(s),
    ensures
        ascii_lower(s) == s,
{
    assert(ascii_lower(s) =~= s);
}

/// A category key that is ASCII and is its display spelling lowercased.
pub open spec fn category_spelled(k: Seq<char>) -> bool {
    is_ascii_chars(k) && ascii_lower(category_display(k)) == k
}

proof fn lemma_category_key(k: Seq<char>)
    requires
        category_key(k),
    ensures
        category_spelled(k),
{
    reveal_strlit("mapreduce");
    reveal_strlit("userevent");
    reveal_strlit("scheduled");
    reveal_strlit("client");
    reveal_strlit("suitelet");
    reveal_strlit("restlet");
    reveal_strlit("portlet");
    assert(category_spelled("mapreduce"@)) by {
        reveal_strlit("MapReduce");
        assert(ascii_lower("MapReduce"@) =~= "mapreduce"@);
    }
    assert(category_spelled("userevent"@)) by {
        reveal_strlit("UserEvent");
        assert(ascii_lower("UserEvent"@) =~= "userevent"@);
    }
    assert(category_spelled("scheduled"@)) by {
        reveal_strlit("Scheduled");
        assert(ascii_lower("Scheduled"@) =~= "scheduled"@);
    }
    assert(category_spelled("client"@)) by {
        reveal_strlit("Client");
        assert(ascii_lower("Client"@) =~= "client"@);
    }
    assert(category_spelled("suitelet"@)) by {
        reveal_strlit("Suitelet");
        assert(ascii_lower("Suitelet"@) =~= "suitelet"@);
    }
    assert(category_spelled("restlet"@)) by {
        reveal_strlit("RESTlet");
        assert(ascii_lower("RESTlet"@) =~= "restlet"@);
    }
    assert(category_spelled("portlet"@)) by {
        reveal_strlit("Portlet");
        assert(ascii_lower("Portlet"@) =~= "portlet"@);
    }
}

/// A module name whose display spelling is ASCII and normalises back to itself.
pub open spec fn module_stable(k: Seq<char>) -> bool {
    is_ascii_chars(module_display(k)) && module_display(ascii_lower(module_display(k)))
        == module_display(k)
}

proof fn lemma_modules_action_to_compress()
    ensures
        module_stable("action"@),
        module_stable("auth"@),
        module_stable("cache"@),
        module_stable("certificatecontrol"@),
        module_stable("commerce"@),
        module_stable("compress"@),
{
    reveal_strlit("certificatecontrol");
    reveal_strlit("currentrecord");
    reveal_strlit("keycontrol");
    reveal_strlit("recordcontext");
    reveal_strlit("suiteappinfo");
    reveal_strlit("serverwidget");
    reveal_strlit("ui/serverwidget");
    assert(module_stable("action"@)) by {
        reveal_strlit("action");
        lemma_lower_keeps("action"@);
    }
    assert(module_stable("auth"@)) by {
        reveal_strlit("auth");
        lemma_lower_keeps("auth"@);
    }
    assert(module_stable("cache"@)) by {
        reveal_strlit("cache");
        lemma_lower_keeps("cache"@);
    }
    assert(module_stable("certificatecontrol"@)) by {
        reveal_strlit("certificateControl");
        assert(ascii_lower("certificateControl"@) =~= "certificatecontrol"@);
    }
    assert(module_stable("commerce"@)) by {
        reveal_strlit("commerce");
        lemma_lower_keeps("commerce"@);
    }
    assert(module_stable("compress"@)) by {
        reveal_strlit("compress");
        lemma_lower_keeps("compress"@);
    }
}

proof fn lemma_modules_config_to_dataset()
    ensures
        module_stable("config"@),
        module_stable("crypto"@),
        module_stable("crypto/certificate"@),
        module_stable("currency"@),
        module_stable("currentrecord"@),
        module_stable("dataset"@),
{
    reveal_strlit("certificatecontrol");
    reveal_strlit("currentrecord");
    reveal_strlit("keycontrol");
    reveal_strlit("recordcontext");
    reveal_strlit("suiteappinfo");
    reveal_strlit("serverwidget");
    reveal_strlit("ui/serverwidget");
    assert(module_stable("config"@)) by {
        reveal_strlit("config");
        lemma_lower_keeps("config"@);
    }
    assert(module_stable("crypto"@)) by {
        reveal_strlit("crypto");
        lemma_lower_keeps("crypto"@);
    }
    assert(module_stable("crypto/certificate"@)) by {
        reveal_strlit("crypto/certificate");
        assert("crypto/certificate"@[1] != "certificatecontrol"@[1]);
        assert("crypto/certificate"@ != "certificatecontrol"@);
        lemma_lower_keeps("crypto/certificate"@);
    }
    assert(module_stable("currency"@)) by {
        reveal_strlit("currency");
        lemma_lower_keeps("currency"@);
    }
    assert(module_stable("currentrecord"@)) by {
        reveal_strlit("currentRecord");
        assert(ascii_lower("currentRecord"@) =~= "currentrecord"@);
    }
    assert(module_stable("dataset"@)) by {
        reveal_strlit("dataset");
        lemma_lower_keeps("dataset"@);
    }
}

proof fn lemma_modules_email_to_format_i18n()
    ensures
        module_stable("email"@),
        module_stable("encode"@),
        module_stable("error"@),
        module_stable("file"@),
        module_stable("format"@),
        module_stable("format/i18n"@),
{
    reveal_strlit("certificatecontrol");
    reveal_strlit("currentrecord");
    reveal_strlit("keycontrol");
    reveal_strlit("recordcontext");
    reveal_strlit("suiteappinfo");
    reveal_strlit("serverwidget");
    reveal_strlit("ui/serverwidget");
    assert(module_stable("email"@)) by {
        reveal_strlit("email");
        lemma_lower_keeps("email"@);
    }
    assert(module_stable("encode"@)) by {
        reveal_strlit("encode");
        lemma_lower_keeps("encode"@);
    }
    assert(module_stable("error"@)) by {
        reveal_strlit("error");
        lemma_lower_keeps("error"@);
    }
    assert(module_stable("file"@)) by {
        reveal_strlit("file");
        lemma_lower_keeps("file"@);
    }
    assert(module_stable("format"@)) by {
        reveal_strlit("format");
        lemma_lower_keeps("format"@);
    }
    assert(module_stable("format/i18n"@)) by {
        reveal_strlit("format/i18n");
        lemma_lower_keeps("format/i18n"@);
    }
}

proof fn lemma_modules_http_to_piremoval()
    ensures
        module_stable("http"@),
        module_stable("https"@),
        module_stable("https/clientcertificate"@),
        module_stable("keycontrol"@),
        module_stable("log"@),
        module_stable("piremoval"@),
{
    reveal_strlit("certificatecontrol");
    reveal_strlit("currentrecord");
    reveal_strlit("keycontrol");
    reveal_strlit("recordcontext");
    reveal_strlit("suiteappinfo");
    reveal_strlit("serverwidget");
    reveal_strlit("ui/serverwidget");
    assert(module_stable("http"@)) by {
        reveal_strlit("http");
        lemma_lower_keeps("http"@);
    }
    assert(module_stable("https"@)) by {
        reveal_strlit("https");
        lemma_lower_keeps("https"@);
    }
    assert(module_stable("https/clientcertificate"@)) by {
        reveal_strlit("https/clientcertificate");
        lemma_lower_keeps("https/clientcertificate"@);
    }
    assert(module_stable("keycontrol"@)) by {
        reveal_strlit("keyControl");
        assert(ascii_lower("keyControl"@) =~= "keycontrol"@);
    }
    assert(module_stable("log"@)) by {
        reveal_strlit("log");
        lemma_lower_keeps("log"@);
    }
    assert(module_stable("piremoval"@)) by {
        reveal_strlit("piremoval");
        lemma_lower_keeps("piremoval"@);
    }
}

proof fn lemma_modules_plugin_to_redirect()
    ensures
        module_stable("plugin"@),
        module_stable("portlet"@),
        module_stable("query"@),
        module_stable("record"@),
        module_stable("recordcontext"@),
        module_stable("redirect"@),
{
    reveal_strlit("certificatecontrol");
    reveal_strlit("currentrecord");
    reveal_strlit("keycontrol");
    reveal_strlit("recordcontext");
    reveal_strlit("suiteappinfo");
    reveal_strlit("serverwidget");
    reveal_strlit("ui/serverwidget");
    assert(module_stable("plugin"@)) by {
        reveal_strlit("plugin");
        lemma_lower_keeps("plugin"@);
    }
    assert(module_stable("portlet"@)) by {
        reveal_strlit("portlet");
        lemma_lower_keeps("portlet"@);
    }
    assert(module_stable("query"@)) by {
        reveal_strlit("query");
        lemma_lower_keeps("query"@);
    }
    assert(module_stable("record"@)) by {
        reveal_strlit("record");
        lemma_lower_keeps("record"@);
    }
    assert(module_stable("recordcontext"@)) by {
        reveal_strlit("recordContext");
        assert(ascii_lower("recordContext"@) =~= "recordcontext"@);
        assert("recordcontext"@[0] != "currentrecord"@[0]);
        assert("recordcontext"@ != "currentrecord"@);
    }
    assert(module_stable("redirect"@)) by {
        reveal_strlit("redirect");
        lemma_lower_keeps("redirect"@);
    }
}

proof fn lemma_modules_render_to_suiteappinfo()
    ensures
        module_stable("render"@),
        module_stable("runtime"@),
        module_stable("search"@),
        module_stable("sftp"@),
        module_stable("sso"@),
        module_stable("suiteappinfo"@),
{
    reveal_strlit("certificatecontrol");
    reveal_strlit("currentrecord");
    reveal_strlit("keycontrol");
    reveal_strlit("recordcontext");
    reveal_strlit("suiteappinfo");
    reveal_strlit("serverwidget");
    reveal_strlit("ui/serverwidget");
    assert(module_stable("render"@)) by {
        reveal_strlit("render");
        lemma_lower_keeps("render"@);
    }
    assert(module_stable("runtime"@)) by {
        reveal_strlit("runtime");
        lemma_lower_keeps("runtime"@);
    }
    assert(module_stable("search"@)) by {
        reveal_strlit("search");
        lemma_lower_keeps("search"@);
    }
    assert(module_stable("sftp"@)) by {
        reveal_strlit("sftp");
        lemma_lower_keeps("sftp"@);
    }
    assert(module_stable("sso"@)) by {
        reveal_strlit("sso");
        lemma_lower_keeps("sso"@);
    }
    assert(module_stable("suiteappinfo"@)) by {
        reveal_strlit("suiteAppInfo");
        assert(ascii_lower("suiteAppInfo"@) =~= "suiteappinfo"@);
    }
}

proof fn lemma_modules_task_to_ui_message()
    ensures
        module_stable("task"@),
        module_stable("task/accounting/recognition"@),
        module_stable("transaction"@),
        module_stable("translation"@),
        module_stable("ui/dialog"@),
        module_stable("ui/message"@),
{
    reveal_strlit("certificatecontrol");
    reveal_strlit("currentrecord");
    reveal_strlit("keycontrol");
    reveal_strlit("recordcontext");
    reveal_strlit("suiteappinfo");
    reveal_strlit("serverwidget");
    reveal_strlit("ui/serverwidget");
    assert(module_stable("task"@)) by {
        reveal_strlit("task");
        lemma_lower_keeps("task"@);
    }
    assert(module_stable("task/accounting/recognition"@)) by {
        reveal_strlit("task/accounting/recognition");
        lemma_lower_keeps("task/accounting/recognition"@);
    }
    assert(module_stable("transaction"@)) by {
        reveal_strlit("transaction");
        lemma_lower_keeps("transaction"@);
    }
    assert(module_stable("translation"@)) by {
        reveal_strlit("translation");
        lemma_lower_keeps("translation"@);
    }
    assert(module_stable("ui/dialog"@)) by {
        reveal_strlit("ui/dialog");
        lemma_lower_keeps("ui/dialog"@);
    }
    assert(module_stable("ui/message"@)) by {
        reveal_strlit("ui/message");
        assert("ui/message"@[0] != "keycontrol"@[0]);
        assert("ui/message"@ != "keycontrol"@);
        lemma_lower_keeps("ui/message"@);
    }
}

proof fn lemma_modules_ui_serverwidget_to_xml()
    ensures
        module_stable("ui/serverwidget"@),
        module_stable("url"@),
        module_stable("util"@),
        module_stable("workbook"@),
        module_stable("workflow"@),
        module_stable("xml"@),
{
    reveal_strlit("certificatecontrol");
    reveal_strlit("currentrecord");
    reveal_strlit("keycontrol");
    reveal_strlit("recordcontext");
    reveal_strlit("suiteappinfo");
    reveal_strlit("serverwidget");
    reveal_strlit("ui/serverwidget");
    assert(module_stable("ui/serverwidget"@)) by {
        reveal_strlit("serverWidget");
        assert(ascii_lower("serverWidget"@) =~= "serverwidget"@);
        assert("serverwidget"@[1] != "suiteappinfo"@[1]);
        assert("serverwidget"@ != "suiteappinfo"@);
        assert("ui/serverwidget"@.len() == 15);
        assert("certificatecontrol"@.len() == 18);
        assert("currentrecord"@.len() == 13);
        assert("keycontrol"@.len() == 10);
        assert("recordcontext"@.len() == 13);
        assert("suiteappinfo"@.len() == 12);
    }
    assert(module_stable("url"@)) by {
        reveal_strlit("url");
        lemma_lower_keeps("url"@);
    }
    assert(module_stable("util"@)) by {
        reveal_strlit("util");
        lemma_lower_keeps("util"@);
    }
    assert(module_stable("workbook"@)) by {
        reveal_strlit("workbook");
        lemma_lower_keeps("workbook"@);
    }
    assert(module_stable("workflow"@)) by {
        reveal_strlit("workflow");
        lemma_lower_keeps("workflow"@);
    }
    assert(module_stable("xml"@)) by {
        reveal_strlit("xml");
        lemma_lower_keeps("xml"@);
    }
}

proof fn lemma_module_key(k: Seq<char>)
    requires
        module_key(k),
    ensures
        module_stable(k),
{
    lemma_modules_action_to_compress();
    lemma_modules_config_to_dataset();
    lemma_modules_email_to_format_i18n();
    lemma_modules_http_to_piremoval();
    lemma_modules_plugin_to_redirect();
    lemma_modules_render_to_suiteappinfo();
    lemma_modules_task_to_ui_message();
    lemma_modules_ui_serverwidget_to_xml();
}

/// A category written in any mix of cases comes out in its one fixed spelling,
/// which is the same word up to case; a name that is no category is refused.
pub proof fn law_category_spelling(s: Seq<char>)
    ensures
        category_key(ascii_lower(s)) ==> fold_case(s) == ascii_lower(s) && script_type_check(s)
            is Ok && ascii_lower(category_display(fold_case(s))) == ascii_lower(s),
        s.len() > 0 && !category_key(fold_case(s)) ==> script_type_check(s) == Err::<
            (),
            ScriptError,
        >(ScriptError::InvalidScriptType),
{
    if category_key(ascii_lower(s)) {
        lemma_category_key(ascii_lower(s));
        lemma_ascii_preimage(s, ascii_lower(s));
    }
}

/// Normalising a module name that was already normalised changes nothing.
pub proof fn law_module_name_round_trip(x: Seq<char>)
    requires
        module_key(fold_case(x)),
    ensures
        module_display(fold_case(module_display(fold_case(x)))) == module_display(fold_case(x)),
{
    lemma_module_key(fold_case(x));
}

} // verus!
