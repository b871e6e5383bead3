//! Scripts that look for elements.

use crate::outside::{json_quoted, quote_json};
use crate::plugin::eval::{reporting, run_reporting, Evaluation};
use crate::plugin::requests::{is_text, optional, FindFromReq, FindReq, ShadowFindReq};
use crate::text::{decimal, decimal_text, text_eq};
use vstd::prelude::*;

verus! {

pub const FIND_XPATH_OPEN: &'static str = "var r=document.evaluate(";

pub const FIND_XPATH_MIDDLE: &'static str =
    ",document,null,XPathResult.ORDERED_NODE_SNAPSHOT_TYPE,null);var a=[];for(var i=0;\
     i<r.snapshotLength;i++)a.push({selector:";

pub const FIND_XPATH_CLOSE: &'static str = ",index:i,using:\"xpath\"});return a";

pub const FIND_CSS_OPEN: &'static str = "var els=document.querySelectorAll(";

pub const FIND_CSS_MIDDLE: &'static str =
    ");var a=[];for(var i=0;i<els.length;i++)a.push({selector:";

pub const FIND_CSS_CLOSE: &'static str = ",index:i});return a";

/// The script that lists the elements that a search of the page finds.
pub open spec fn find_script(using: Seq<char>, value: Seq<char>) -> Seq<char> {
    let v = json_quoted(value);
    if using == "xpath"@ {
        FIND_XPATH_OPEN@ + v + FIND_XPATH_MIDDLE@ + v + FIND_XPATH_CLOSE@
    } else {
        FIND_CSS_OPEN@ + v + FIND_CSS_MIDDLE@ + v + FIND_CSS_CLOSE@
    }
}

/// Searches the page.
pub fn element_find(body: &FindReq) -> (r: Evaluation)
    ensures
        r@ == reporting(find_script(body.using@, body.value@), "elements"@),
{
    let v = quote_json(body.value.as_str());
    let script = if text_eq(body.using.as_str(), "xpath") {
        let mut js = FIND_XPATH_OPEN.to_owned();
        js.append(v.as_str());
        js.append(FIND_XPATH_MIDDLE);
        js.append(v.as_str());
        js.append(FIND_XPATH_CLOSE);
        js
    } else {
        let mut js = FIND_CSS_OPEN.to_owned();
        js.append(v.as_str());
        js.append(FIND_CSS_MIDDLE);
        js.append(v.as_str());
        js.append(FIND_CSS_CLOSE);
        js
    };
    run_reporting(script, "elements")
}

/// The name of the function that finds an element of the page by a strategy.
pub open spec fn find_fn(using: Option<Seq<char>>) -> Seq<char> {
    if using == Some("xpath"@) {
        "findElementByXPath"@
    } else {
        "findElement"@
    }
}

/// Names the function that finds an element of the page by a strategy.
pub fn name_find_fn(using: &Option<String>) -> (r: &'static str)
    ensures
        r@ == find_fn(optional(*using)),
{
    if is_text(using, "xpath") {
        "findElementByXPath"
    } else {
        "findElement"
    }
}

pub const IN_SHADOW_OPEN: &'static str =
    "if(!window.__wdShadowCtr)window.__wdShadowCtr=0;var host=window.__WEBDRIVER__.";

pub const IN_SHADOW_MIDDLE: &'static str =
    ");if(!host)throw new Error('host element not found');var sr=host.shadowRoot;if(!sr)\
     throw new Error('no shadow root');var els=sr.querySelectorAll(";

pub const IN_SHADOW_CLOSE: &'static str =
    ");var a=[];for(var i=0;i<els.length;i++){var id='wds-'+(++window.__wdShadowCtr);\
     window.__WEBDRIVER__.__shadowCache[id]=els[i];a.push({selector:id,index:0,\
     using:'shadow'})}return a";

/// The script that lists the elements that a search below a shadow root finds.
pub open spec fn shadow_find_script(body: ShadowFindReq) -> Seq<char> {
    IN_SHADOW_OPEN@ + find_fn(optional(body.host_using)) + "("@ + json_quoted(body.host_selector@)
        + ","@ + decimal_text(body.host_index as nat) + IN_SHADOW_MIDDLE@ + json_quoted(body.value@)
        + IN_SHADOW_CLOSE@
}

/// Searches below a shadow root.
pub fn shadow_find(body: &ShadowFindReq) -> (r: Evaluation)
    ensures
        r@ == reporting(shadow_find_script(*body), "elements"@),
{
    let mut js = IN_SHADOW_OPEN.to_owned();
    js.append(name_find_fn(&body.host_using));
    js.append("(");
    js.append(quote_json(body.host_selector.as_str()).as_str());
    js.append(",");
    js.append(decimal(body.host_index as u64).as_str());
    js.append(IN_SHADOW_MIDDLE);
    js.append(quote_json(body.value.as_str()).as_str());
    js.append(IN_SHADOW_CLOSE);
    run_reporting(js, "elements")
}

pub const FIND_FROM_OPEN: &'static str = "if(!window.__wdFindFromCtr)window.__wdFindFromCtr=0;";

pub const PARENT_XPATH_OPEN: &'static str = "var __xr=document.evaluate(";

pub const PARENT_XPATH_MIDDLE: &'static str =
    ",document,null,XPathResult.ORDERED_NODE_SNAPSHOT_TYPE,null);var parent=\
     __xr.snapshotItem(";

pub const PARENT_XPATH_CLOSE: &'static str =
    ");if(!parent)throw new Error('parent element not found');";

pub const PARENT_CSS_OPEN: &'static str = "var parent=document.querySelectorAll(";

pub const PARENT_CSS_CLOSE: &'static str =
    "];if(!parent)throw new Error('parent element not found');";

pub const CHILD_XPATH_OPEN: &'static str = "var r=document.evaluate(";

pub const CHILD_XPATH_CLOSE: &'static str =
    ",parent,null,XPathResult.ORDERED_NODE_SNAPSHOT_TYPE,null);var a=[];for(var i=0;\
     i<r.snapshotLength;i++){var e=r.snapshotItem(i);var id=\
     'wd-'+(++window.__wdFindFromCtr);e.setAttribute('data-wd-id',id);a.push({\
     selector:'[data-wd-id=\"'+id+'\"]',index:0})}return a";

pub const CHILD_CSS_OPEN: &'static str = "var els=parent.querySelectorAll(";

pub const CHILD_CSS_CLOSE: &'static str =
    ");var a=[];for(var i=0;i<els.length;i++){var id='wd-'+(++window.__wdFindFromCtr);\
     els[i].setAttribute('data-wd-id',id);a.push({selector:'[data-wd-id=\"'+id+'\"]',\
     index:0})}return a";

/// The script that finds the parent of a search below an element.
pub open spec fn parent_script(body: FindFromReq) -> Seq<char> {
    if optional(body.parent_using) == Some("xpath"@) {
        PARENT_XPATH_OPEN@ + json_quoted(body.parent_selector@) + PARENT_XPATH_MIDDLE@
            + decimal_text(body.parent_index as nat) + PARENT_XPATH_CLOSE@
    } else {
        PARENT_CSS_OPEN@ + json_quoted(body.parent_selector@) + ")["@
            + decimal_text(body.parent_index as nat) + PARENT_CSS_CLOSE@
    }
}

/// The script that lists the elements below the parent that a search finds.
pub open spec fn child_script(body: FindFromReq) -> Seq<char> {
    if body.using@ == "xpath"@ {
        CHILD_XPATH_OPEN@ + json_quoted(body.value@) + CHILD_XPATH_CLOSE@
    } else {
        CHILD_CSS_OPEN@ + json_quoted(body.value@) + CHILD_CSS_CLOSE@
    }
}

/// The script that lists the elements that a search below an element finds.
pub open spec fn find_from_script(body: FindFromReq) -> Seq<char> {
    FIND_FROM_OPEN@ + parent_script(body) + child_script(body)
}

fn write_parent_script(body: &FindFromReq) -> (r: String)
    ensures
        r@ == parent_script(*body),
{
    let sel = quote_json(body.parent_selector.as_str());
    if is_text(&body.parent_using, "xpath") {
        let mut js = PARENT_XPATH_OPEN.to_owned();
        js.append(sel.as_str());
        js.append(PARENT_XPATH_MIDDLE);
        js.append(decimal(body.parent_index as u64).as_str());
        js.append(PARENT_XPATH_CLOSE);
        js
    } else {
        let mut js = PARENT_CSS_OPEN.to_owned();
        js.append(sel.as_str());
        js.append(")[");
        js.append(decimal(body.parent_index as u64).as_str());
        js.append(PARENT_CSS_CLOSE);
        js
    }
}

fn write_child_script(body: &FindFromReq) -> (r: String)
    ensures
        r@ == child_script(*body),
{
    let v = quote_json(body.value.as_str());
    if text_eq(body.using.as_str(), "xpath") {
        let mut js = CHILD_XPATH_OPEN.to_owned();
        js.append(v.as_str());
        js.append(CHILD_XPATH_CLOSE);
        js
    } else {
        let mut js = CHILD_CSS_OPEN.to_owned();
        js.append(v.as_str());
        js.append(CHILD_CSS_CLOSE);
        js
    }
}

/// Searches below an element.
pub fn element_find_from(body: &FindFromReq) -> (r: Evaluation)
    ensures
        r@ == reporting(find_from_script(*body), "elements"@),
{
    let mut js = FIND_FROM_OPEN.to_owned();
    js.append(write_parent_script(body).as_str());
    js.append(write_child_script(body).as_str());
    run_reporting(js, "elements")
}

} // verus!
