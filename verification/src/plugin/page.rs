//! Scripts on the page: user scripts, navigation, dialogs and cookies.

use crate::document::{document, write_array};
use crate::outside::{json_quoted, quote_json};
use crate::plugin::eval::{
    quietly, reporting, run_quietly, run_reporting, Evaluation, EvaluationView, Job, JobView,
    ReplyWith, ReplyWithView, RESOLVE_ARGS_JS,
};
use crate::plugin::requests::{
    AlertTextReq, CookieAddReq, CookieData, CookieNameReq, NavReq, ScriptReq,
};
use crate::text::{decimal, decimal_text};
use crate::value::{values, JsonView};
use vstd::prelude::*;

verus! {

pub const RUN_OPEN: &'static str = "var __args=__wdResolve(";

pub const RUN_MIDDLE: &'static str = ");return (function(){";

pub const RUN_CLOSE: &'static str = "}).apply(null,__args)";

/// The script that runs a user's script with arguments that are given as a JSON document.
pub open spec fn run_script(args: Seq<char>, script: Seq<char>) -> Seq<char> {
    RESOLVE_ARGS_JS@ + RUN_OPEN@ + args + RUN_MIDDLE@ + script + RUN_CLOSE@
}

/// Writes the script that runs a user's script with arguments that are given as a JSON document.
pub fn write_run_script(args: &str, script: &str) -> (r: String)
    ensures
        r@ == run_script(args@, script@),
{
    let mut js = RESOLVE_ARGS_JS.to_owned();
    js.append(RUN_OPEN);
    js.append(args);
    js.append(RUN_MIDDLE);
    js.append(script);
    js.append(RUN_CLOSE);
    js
}

/// What is done to run a user's script.
pub open spec fn execution(args: Seq<JsonView>, script: Seq<char>) -> EvaluationView {
    reporting(run_script(document(JsonView::Array(args)), script), "value"@)
}

/// Runs a user's script.
pub fn script_execute(body: &ScriptReq) -> (r: Evaluation)
    ensures
        r@ == execution(values(body.args@), body.script@),
{
    run_reporting(
        write_run_script(write_array(&body.args).as_str(), body.script.as_str()),
        "value",
    )
}

/// What is done to run a user's script that calls back.
pub open spec fn async_execution(args: Seq<JsonView>, script: Seq<char>) -> EvaluationView {
    EvaluationView {
        job: JobView::Async { args: document(JsonView::Array(args)), script },
        how: ReplyWithView::Member("value"@),
    }
}

/// Runs a user's script that calls back.
pub fn script_execute_async(body: &ScriptReq) -> (r: Evaluation)
    ensures
        r@ == async_execution(values(body.args@), body.script@),
{
    Evaluation {
        job: Job::Async { args: write_array(&body.args), script: body.script.clone() },
        how: ReplyWith::Member("value".to_owned()),
    }
}

/// The script that goes to an address.
pub open spec fn navigate_script(url: Seq<char>) -> Seq<char> {
    "window.location.href="@ + json_quoted(url) + ";return null"@
}

/// Goes to an address.
pub fn navigate_url(body: &NavReq) -> (r: Evaluation)
    ensures
        r@ == quietly(navigate_script(body.url@)),
{
    let mut js = "window.location.href=".to_owned();
    js.append(quote_json(body.url.as_str()).as_str());
    js.append(";return null");
    run_quietly(js)
}

pub const ADDRESS_JS: &'static str = "return window.location.href";

/// Reads the address of the page, not of a frame.
pub fn navigate_current() -> (r: Evaluation)
    ensures
        r@ == reporting(ADDRESS_JS@, "url"@),
{
    run_reporting(ADDRESS_JS.to_owned(), "url")
}

pub const TITLE_JS: &'static str = "return window.document.title";

/// Reads the title of the page, not of a frame.
pub fn navigate_title() -> (r: Evaluation)
    ensures
        r@ == reporting(TITLE_JS@, "title"@),
{
    run_reporting(TITLE_JS.to_owned(), "title")
}

pub const BACK_JS: &'static str = "window.history.back();return null";

/// Goes back in the history.
pub fn navigate_back() -> (r: Evaluation)
    ensures
        r@ == quietly(BACK_JS@),
{
    run_quietly(BACK_JS.to_owned())
}

pub const FORWARD_JS: &'static str = "window.history.forward();return null";

/// Goes forward in the history.
pub fn navigate_forward() -> (r: Evaluation)
    ensures
        r@ == quietly(FORWARD_JS@),
{
    run_quietly(FORWARD_JS.to_owned())
}

pub const RELOAD_JS: &'static str = "window.location.reload();return null";

/// Loads the page again.
pub fn navigate_refresh() -> (r: Evaluation)
    ensures
        r@ == quietly(RELOAD_JS@),
{
    run_quietly(RELOAD_JS.to_owned())
}

pub const SOURCE_JS: &'static str = "return document.documentElement.outerHTML";

/// Reads the source of the document.
pub fn get_source() -> (r: Evaluation)
    ensures
        r@ == reporting(SOURCE_JS@, "source"@),
{
    run_reporting(SOURCE_JS.to_owned(), "source")
}

pub const ALERT_TEXT_JS: &'static str =
    "var d=window.__WEBDRIVER__.__dialog;if(!d.open)throw new Error('no such alert');\
     return d.text";

/// Reads the text of the open dialog.
pub fn alert_get_text() -> (r: Evaluation)
    ensures
        r@ == reporting(ALERT_TEXT_JS@, "text"@),
{
    run_reporting(ALERT_TEXT_JS.to_owned(), "text")
}

pub const ALERT_DISMISS_JS: &'static str =
    "var d=window.__WEBDRIVER__.__dialog;if(!d.open)throw new Error('no such alert');\
     if(d.type==='confirm')d.response=false;if(d.type==='prompt')d.response=null;d.open=\
     false;return null";

/// Dismisses the open dialog.
pub fn alert_dismiss() -> (r: Evaluation)
    ensures
        r@ == quietly(ALERT_DISMISS_JS@),
{
    run_quietly(ALERT_DISMISS_JS.to_owned())
}

pub const ALERT_ACCEPT_JS: &'static str =
    "var d=window.__WEBDRIVER__.__dialog;if(!d.open)throw new Error('no such alert');\
     if(d.type==='confirm')d.response=true;if(d.type==='prompt'&&d.response===null)\
     d.response=d.defaultValue||'';d.open=false;return null";

/// Accepts the open dialog.
pub fn alert_accept() -> (r: Evaluation)
    ensures
        r@ == quietly(ALERT_ACCEPT_JS@),
{
    run_quietly(ALERT_ACCEPT_JS.to_owned())
}

pub const ALERT_SEND: &'static str =
    "var d=window.__WEBDRIVER__.__dialog;if(!d.open)throw new Error('no such alert');\
     if(d.type!=='prompt')throw new Error('no such alert');d.response=";

/// The script that types text into the open prompt.
pub open spec fn prompt_script(text: Seq<char>) -> Seq<char> {
    ALERT_SEND@ + json_quoted(text) + ";return null"@
}

/// Types text into the open prompt.
pub fn alert_send_text(body: &AlertTextReq) -> (r: Evaluation)
    ensures
        r@ == quietly(prompt_script(body.text@)),
{
    let mut js = ALERT_SEND.to_owned();
    js.append(quote_json(body.text.as_str()).as_str());
    js.append(";return null");
    run_quietly(js)
}

pub const COOKIES_JS: &'static str = r#"
var store = window.__WEBDRIVER__.cookies;
var cookies = [];
var keys = Object.keys(store);
for (var i = 0; i < keys.length; i++) {
    cookies.push(store[keys[i]]);
}
return cookies;
"#;

/// Lists all cookies.
pub fn cookie_get_all() -> (r: Evaluation)
    ensures
        r@ == reporting(COOKIES_JS@, "cookies"@),
{
    run_reporting(COOKIES_JS.to_owned(), "cookies")
}

/// The script that reads a cookie.
pub open spec fn cookie_get_script(name: Seq<char>) -> Seq<char> {
    "var c=window.__WEBDRIVER__.cookies["@ + json_quoted(name) + "];return c||null"@
}

/// Reads a cookie.
pub fn cookie_get(body: &CookieNameReq) -> (r: Evaluation)
    ensures
        r@ == reporting(cookie_get_script(body.name@), "cookie"@),
{
    let mut js = "var c=window.__WEBDRIVER__.cookies[".to_owned();
    js.append(quote_json(body.name.as_str()).as_str());
    js.append("];return c||null");
    run_reporting(js, "cookie")
}

/// A boolean in a script.
pub open spec fn truth(b: bool) -> Seq<char> {
    if b {
        "true"@
    } else {
        "false"@
    }
}

fn write_truth(b: bool) -> (r: &'static str)
    ensures
        r@ == truth(b),
{
    if b {
        "true"
    } else {
        "false"
    }
}

/// The domain of a cookie in a script; that of the page where the cookie has none.
pub open spec fn cookie_domain(c: CookieData) -> Seq<char> {
    match c.domain {
        Some(d) => json_quoted(d@),
        None => "window.location.hostname"@,
    }
}

/// The time at which a cookie expires, in a script.
pub open spec fn cookie_expiry(c: CookieData) -> Seq<char> {
    match c.expiry {
        Some(e) => decimal_text(e as nat),
        None => "null"@,
    }
}

pub const COOKIE_ADD_OPEN: &'static str = "window.__WEBDRIVER__.cookies[";

pub const COOKIE_ADD_CLOSE: &'static str = ",sameSite:\"Lax\"};return null";

/// The script that adds a cookie.
pub open spec fn cookie_add_script(c: CookieData) -> Seq<char> {
    COOKIE_ADD_OPEN@ + json_quoted(c.name@) + "]={name:"@ + json_quoted(c.name@) + ",value:"@
        + json_quoted(c.value@) + ",path:"@ + json_quoted(c.path@) + ",domain:"@ + cookie_domain(c)
        + ",secure:"@ + truth(c.secure) + ",httpOnly:"@ + truth(c.http_only) + ",expiry:"@
        + cookie_expiry(c) + COOKIE_ADD_CLOSE@
}

/// Adds a cookie.
pub fn cookie_add(body: &CookieAddReq) -> (r: Evaluation)
    ensures
        r@ == quietly(cookie_add_script(body.cookie)),
{
    let c = &body.cookie;
    let name = quote_json(c.name.as_str());
    let domain = match &c.domain {
        Some(d) => quote_json(d.as_str()),
        None => "window.location.hostname".to_owned(),
    };
    let expiry = match c.expiry {
        Some(e) => decimal(e),
        None => "null".to_owned(),
    };
    let mut js = COOKIE_ADD_OPEN.to_owned();
    js.append(name.as_str());
    js.append("]={name:");
    js.append(name.as_str());
    js.append(",value:");
    js.append(quote_json(c.value.as_str()).as_str());
    js.append(",path:");
    js.append(quote_json(c.path.as_str()).as_str());
    js.append(",domain:");
    js.append(domain.as_str());
    js.append(",secure:");
    js.append(write_truth(c.secure));
    js.append(",httpOnly:");
    js.append(write_truth(c.http_only));
    js.append(",expiry:");
    js.append(expiry.as_str());
    js.append(COOKIE_ADD_CLOSE);
    run_quietly(js)
}

/// The script that deletes a cookie.
pub open spec fn cookie_delete_script(name: Seq<char>) -> Seq<char> {
    "delete window.__WEBDRIVER__.cookies["@ + json_quoted(name) + "];return null"@
}

/// Deletes a cookie.
pub fn cookie_delete(body: &CookieNameReq) -> (r: Evaluation)
    ensures
        r@ == quietly(cookie_delete_script(body.name@)),
{
    let mut js = "delete window.__WEBDRIVER__.cookies[".to_owned();
    js.append(quote_json(body.name.as_str()).as_str());
    js.append("];return null");
    run_quietly(js)
}

pub const COOKIES_DELETE_JS: &'static str =
    "var s=window.__WEBDRIVER__.cookies;var k=Object.keys(s);for(var i=0;i<k.length;i++)\
     delete s[k[i]];return null";

/// Deletes all cookies.
pub fn cookie_delete_all() -> (r: Evaluation)
    ensures
        r@ == quietly(COOKIES_DELETE_JS@),
{
    run_quietly(COOKIES_DELETE_JS.to_owned())
}

} // verus!
