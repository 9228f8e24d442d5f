//! The fixed reference data: script categories, API versions and modules.
use vstd::prelude::*;
use crate::text::same_text;

verus! {

/// The lowercase keys of the script categories.
pub open spec fn category_key(s: Seq<char>) -> bool {
    ||| s == "mapreduce"@
    ||| s == "userevent"@
    ||| s == "scheduled"@
    ||| s == "client"@
    ||| s == "suitelet"@
    ||| s == "portlet"@
    ||| s == "restlet"@
}

/// The accepted API versions, compared exactly.
pub open spec fn api_version(s: Seq<char>) -> bool {
    ||| s == "2.1"@
    ||| s == "2"@
    ||| s == "2.x"@
    ||| s == "2.0"@
}

/// The lowercase identifiers of the recognised modules.
pub open spec fn module_key(s: Seq<char>) -> bool {
    ||| s == "action"@
    ||| s == "auth"@
    ||| s == "cache"@
    ||| s == "certificatecontrol"@
    ||| s == "commerce"@
    ||| s == "compress"@
    ||| s == "config"@
    ||| s == "crypto"@
    ||| s == "crypto/certificate"@
    ||| s == "currency"@
    ||| s == "currentrecord"@
    ||| s == "dataset"@
    ||| s == "email"@
    ||| s == "encode"@
    ||| s == "error"@
    ||| s == "file"@
    ||| s == "format"@
    ||| s == "format/i18n"@
    ||| s == "http"@
    ||| s == "https"@
    ||| s == "https/clientcertificate"@
    ||| s == "keycontrol"@
    ||| s == "log"@
    ||| s == "piremoval"@
    ||| s == "plugin"@
    ||| s == "portlet"@
    ||| s == "query"@
    ||| s == "record"@
    ||| s == "recordcontext"@
    ||| s == "redirect"@
    ||| s == "render"@
    ||| s == "runtime"@
    ||| s == "search"@
    ||| s == "sftp"@
    ||| s == "sso"@
    ||| s == "suiteappinfo"@
    ||| s == "task"@
    ||| s == "task/accounting/recognition"@
    ||| s == "transaction"@
    ||| s == "translation"@
    ||| s == "ui/dialog"@
    ||| s == "ui/message"@
    ||| s == "ui/serverwidget"@
    ||| s == "url"@
    ||| s == "util"@
    ||| s == "workbook"@
    ||| s == "workflow"@
    ||| s == "xml"@
}

/// Whether `key` is one of the script category keys.
pub fn is_category_key(key: &str) -> (r: bool)
    ensures
        r == category_key(key@),
{
    same_text(key, "mapreduce") || same_text(key, "userevent") || same_text(key, "scheduled")
        || same_text(key, "client") || same_text(key, "suitelet") || same_text(key, "portlet")
        || same_text(key, "restlet")
}

/// Whether `version` is one of the accepted API versions.
pub fn is_api_version(version: &str) -> (r: bool)
    ensures
        r == api_version(version@),
{
    same_text(version, "2.1") || same_text(version, "2") || same_text(version, "2.x")
        || same_text(version, "2.0")
}

/// Whether `key` is one of the recognised module identifiers.
pub fn is_module_key(key: &str) -> (r: bool)
    ensures
        r == module_key(key@),
{
    same_text(key, "action") || same_text(key, "auth") || same_text(key, "cache")
        || same_text(key, "certificatecontrol") || same_text(key, "commerce")
        || same_text(key, "compress") || same_text(key, "config") || same_text(key, "crypto")
        || same_text(key, "crypto/certificate") || same_text(key, "currency")
        || same_text(key, "currentrecord") || same_text(key, "dataset")
        || same_text(key, "email") || same_text(key, "encode") || same_text(key, "error")
        || same_text(key, "file") || same_text(key, "format") || same_text(key, "format/i18n")
        || same_text(key, "http") || same_text(key, "https")
        || same_text(key, "https/clientcertificate") || same_text(key, "keycontrol")
        || same_text(key, "log") || same_text(key, "piremoval") || same_text(key, "plugin")
        || same_text(key, "portlet") || same_text(key, "query") || same_text(key, "record")
        || same_text(key, "recordcontext") || same_text(key, "redirect")
        || same_text(key, "render") || same_text(key, "runtime") || same_text(key, "search")
        || same_text(key, "sftp") || same_text(key, "sso") || same_text(key, "suiteappinfo")
        || same_text(key, "task") || same_text(key, "task/accounting/recognition")
        || same_text(key, "transaction") || same_text(key, "translation")
        || same_text(key, "ui/dialog") || same_text(key, "ui/message")
        || same_text(key, "ui/serverwidget") || same_text(key, "url") || same_text(key, "util")
        || same_text(key, "workbook") || same_text(key, "workflow") || same_text(key, "xml")
}

} // verus!
