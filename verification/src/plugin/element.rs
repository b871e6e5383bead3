//! Scripts on elements.

use crate::document::{document, write_array};
use crate::json::{object_1, text_value, with_member};
use crate::outside::{json_quoted, quote_json};
use crate::plugin::eval::{
    quietly, reporting, run_quietly, run_reporting, Evaluation, EvaluationView, Job, JobView,
    ReplyWith, ReplyWithView,
};
use crate::plugin::events::{
    dispatch_mouse_event_js, dispatch_pointer_event_js, mouse_event, pointer_event,
};
use crate::plugin::requests::{
    is_text, optional, ElemAttrReq, ElemReq, FileInfo, SendKeysReq, SetFilesReq,
};
use crate::text::{decimal, decimal_text};
use crate::value::{object, values, Json, JsonView};
use vstd::prelude::*;

verus! {

pub const SHADOW_OPEN: &'static str = "var el=window.__WEBDRIVER__.findElementInShadow(";

pub const SHADOW_CLOSE: &'static str =
    ");if(!el)throw new Error(\"shadow element not found or stale\");";

pub const XPATH_OPEN: &'static str = "var __xr=document.evaluate(";

pub const XPATH_MIDDLE: &'static str =
    ",document,null,XPathResult.ORDERED_NODE_SNAPSHOT_TYPE,null);var el=\
     __xr.snapshotItem(";

pub const XPATH_CLOSE: &'static str = ");if(!el)throw new Error(\"element not found\");";

pub const CSS_OPEN: &'static str = "var el=document.querySelectorAll(";

pub const CSS_CLOSE: &'static str = "];if(!el)throw new Error(\"element not found\");";

/// The script that finds an element and runs `body` on it.
pub open spec fn on_element(
    selector: Seq<char>,
    index: usize,
    using: Option<Seq<char>>,
    body: Seq<char>,
) -> Seq<char> {
    if using == Some("shadow"@) {
        SHADOW_OPEN@ + json_quoted(selector) + SHADOW_CLOSE@ + body
    } else if using == Some("xpath"@) {
        XPATH_OPEN@ + json_quoted(selector) + XPATH_MIDDLE@ + decimal_text(index as nat)
            + XPATH_CLOSE@ + body
    } else {
        CSS_OPEN@ + json_quoted(selector) + ")["@ + decimal_text(index as nat) + CSS_CLOSE@ + body
    }
}

/// Writes the script that finds an element and runs `body` on it.
pub fn eval_on_element(
    selector: &str,
    index: usize,
    using: &Option<String>,
    body: &str,
) -> (r: String)
    ensures
        r@ == on_element(selector@, index, optional(*using), body@),
{
    let sel = quote_json(selector);
    if is_text(using, "shadow") {
        let mut js = SHADOW_OPEN.to_owned();
        js.append(sel.as_str());
        js.append(SHADOW_CLOSE);
        js.append(body);
        js
    } else if is_text(using, "xpath") {
        let mut js = XPATH_OPEN.to_owned();
        js.append(sel.as_str());
        js.append(XPATH_MIDDLE);
        js.append(decimal(index as u64).as_str());
        js.append(XPATH_CLOSE);
        js.append(body);
        js
    } else {
        let mut js = CSS_OPEN.to_owned();
        js.append(sel.as_str());
        js.append(")[");
        js.append(decimal(index as u64).as_str());
        js.append(CSS_CLOSE);
        js.append(body);
        js
    }
}

/// The script that finds the element of a request and runs `body` on it.
pub open spec fn on_request(body: ElemReq, js: Seq<char>) -> Seq<char> {
    on_element(body.selector@, body.index, optional(body.using), js)
}

fn for_request(body: &ElemReq, js: &str) -> (r: String)
    ensures
        r@ == on_request(*body, js@),
{
    eval_on_element(body.selector.as_str(), body.index, &body.using, js)
}

pub const TEXT_JS: &'static str = "return el.textContent||''";

/// Reads the text of an element.
pub fn element_text(body: &ElemReq) -> (r: Evaluation)
    ensures
        r@ == reporting(on_request(*body, TEXT_JS@), "text"@),
{
    run_reporting(for_request(body, TEXT_JS), "text")
}

pub const TAG_JS: &'static str = "return el.tagName.toLowerCase()";

/// Reads the tag of an element.
pub fn element_tag(body: &ElemReq) -> (r: Evaluation)
    ensures
        r@ == reporting(on_request(*body, TAG_JS@), "tag"@),
{
    run_reporting(for_request(body, TAG_JS), "tag")
}

pub const RECT_JS: &'static str =
    "var r=el.getBoundingClientRect();return{x:r.x,y:r.y,width:r.width,height:r.height}";

/// Reads the place and size of an element.
pub fn element_rect(body: &ElemReq) -> (r: Evaluation)
    ensures
        r@ == (EvaluationView {
            job: JobView::Wrapped(on_request(*body, RECT_JS@)),
            how: ReplyWithView::Whole,
        }),
{
    Evaluation { job: Job::Wrapped(for_request(body, RECT_JS)), how: ReplyWith::Whole }
}

pub const CLEAR_JS: &'static str =
    "el.focus();el.value='';el.dispatchEvent(new Event('input',{bubbles:true}));\
     el.dispatchEvent(new Event('change',{bubbles:true}));return null";

/// Empties an element.
pub fn element_clear(body: &ElemReq) -> (r: Evaluation)
    ensures
        r@ == quietly(on_request(*body, CLEAR_JS@)),
{
    run_quietly(for_request(body, CLEAR_JS))
}

pub const DISPLAYED_JS: &'static str =
    "var s=window.getComputedStyle(el);return s.display!=='none'&&s.visibility!==\
     'hidden'&&s.opacity!=='0'";

/// Tells whether an element is displayed.
pub fn element_displayed(body: &ElemReq) -> (r: Evaluation)
    ensures
        r@ == reporting(on_request(*body, DISPLAYED_JS@), "displayed"@),
{
    run_reporting(for_request(body, DISPLAYED_JS), "displayed")
}

pub const ENABLED_JS: &'static str = "return !el.disabled";

/// Tells whether an element is enabled.
pub fn element_enabled(body: &ElemReq) -> (r: Evaluation)
    ensures
        r@ == reporting(on_request(*body, ENABLED_JS@), "enabled"@),
{
    run_reporting(for_request(body, ENABLED_JS), "enabled")
}

pub const SELECTED_JS: &'static str = "return el.selected||el.checked||false";

/// Tells whether an element is selected.
pub fn element_selected(body: &ElemReq) -> (r: Evaluation)
    ensures
        r@ == reporting(on_request(*body, SELECTED_JS@), "selected"@),
{
    run_reporting(for_request(body, SELECTED_JS), "selected")
}

pub const HAS_SHADOW_JS: &'static str = "return el.shadowRoot !== null";

/// Tells whether an element has a shadow root.
pub fn element_shadow(body: &ElemReq) -> (r: Evaluation)
    ensures
        r@ == reporting(on_request(*body, HAS_SHADOW_JS@), "hasShadow"@),
{
    run_reporting(for_request(body, HAS_SHADOW_JS), "hasShadow")
}

pub const ROLE_JS: &'static str = r#"var tag=el.tagName.toLowerCase();
var role=el.getAttribute('role');
if(role)return role;
var map={button:'button',a:'link',h1:'heading',h2:'heading',h3:'heading',h4:'heading',h5:'heading',h6:'heading',
input:'textbox',textarea:'textbox',select:'combobox',option:'option',ul:'list',ol:'list',li:'listitem',
table:'table',tr:'row',td:'cell',th:'columnheader',img:'img',nav:'navigation',main:'main',header:'banner',
footer:'contentinfo',aside:'complementary',form:'form',details:'group',summary:'button',dialog:'dialog',
progress:'progressbar',meter:'meter'};
if(tag==='input'){var t=(el.getAttribute('type')||'text').toLowerCase();
if(t==='checkbox')return 'checkbox';if(t==='radio')return 'radio';
if(t==='range')return 'slider';if(t==='number')return 'spinbutton';
if(t==='search')return 'searchbox';return 'textbox'}
if(tag==='a'&&el.hasAttribute('href'))return 'link';
return map[tag]||'generic'"#;

/// Computes the role of an element.
pub fn element_computed_role(body: &ElemReq) -> (r: Evaluation)
    ensures
        r@ == reporting(on_request(*body, ROLE_JS@), "role"@),
{
    run_reporting(for_request(body, ROLE_JS), "role")
}

pub const LABEL_JS: &'static str = r#"var lblBy=el.getAttribute('aria-labelledby');
if(lblBy){var ids=lblBy.split(/\s+/);var parts=[];
for(var i=0;i<ids.length;i++){var e=document.getElementById(ids[i]);if(e)parts.push(e.textContent.trim())}
if(parts.length)return parts.join(' ')}
var lbl=el.getAttribute('aria-label');if(lbl)return lbl;
if(el.id){var labels=document.querySelectorAll('label[for="'+el.id+'"]');
if(labels.length)return labels[0].textContent.trim()}
if(el.placeholder)return el.placeholder;
if(el.alt)return el.alt;
if(el.title)return el.title;
return ''"#;

/// Computes the label of an element.
pub fn element_computed_label(body: &ElemReq) -> (r: Evaluation)
    ensures
        r@ == reporting(on_request(*body, LABEL_JS@), "label"@),
{
    run_reporting(for_request(body, LABEL_JS), "label")
}

/// The script that reads an attribute of what was found.
pub open spec fn attribute_script(name: Seq<char>) -> Seq<char> {
    "return el.getAttribute("@ + json_quoted(name) + ")"@
}

/// Reads an attribute of an element.
pub fn element_attribute(body: &ElemAttrReq) -> (r: Evaluation)
    ensures
        r@ == reporting(
            on_element(
                body.selector@,
                body.index,
                optional(body.using),
                attribute_script(body.name@),
            ),
            "value"@,
        ),
{
    let mut js = "return el.getAttribute(".to_owned();
    js.append(quote_json(body.name.as_str()).as_str());
    js.append(")");
    run_reporting(
        eval_on_element(body.selector.as_str(), body.index, &body.using, js.as_str()),
        "value",
    )
}

/// The script that reads a property of what was found.
pub open spec fn property_script(name: Seq<char>) -> Seq<char> {
    "return el["@ + json_quoted(name) + "]"@
}

/// Reads a property of an element.
pub fn element_property(body: &ElemAttrReq) -> (r: Evaluation)
    ensures
        r@ == reporting(
            on_element(
                body.selector@,
                body.index,
                optional(body.using),
                property_script(body.name@),
            ),
            "value"@,
        ),
{
    let mut js = "return el[".to_owned();
    js.append(quote_json(body.name.as_str()).as_str());
    js.append("]");
    run_reporting(
        eval_on_element(body.selector.as_str(), body.index, &body.using, js.as_str()),
        "value",
    )
}

pub const KEYS: &'static str =
    ";el.dispatchEvent(new Event('input',{bubbles:true}));\
     el.dispatchEvent(new Event('change',{bubbles:true}));return null";

/// The script that types text into what was found.
pub open spec fn keys_script(text: Seq<char>) -> Seq<char> {
    "el.focus();el.value+="@ + json_quoted(text) + KEYS@
}

/// Types text into an element.
pub fn element_send_keys(body: &SendKeysReq) -> (r: Evaluation)
    ensures
        r@ == quietly(
            on_element(
                body.selector@,
                body.index,
                optional(body.using),
                keys_script(body.text@),
            ),
        ),
{
    let mut js = "el.focus();el.value+=".to_owned();
    js.append(quote_json(body.text.as_str()).as_str());
    js.append(KEYS);
    run_quietly(eval_on_element(body.selector.as_str(), body.index, &body.using, js.as_str()))
}

/// A file as the script gets it; the members stand in the order of their names.
pub open spec fn script_file(f: FileInfo) -> JsonView {
    object("data"@, JsonView::Str(f.data@)).with("mime"@, JsonView::Str(f.mime@)).with(
        "name"@,
        JsonView::Str(f.name@),
    )
}

/// The files as the script gets them.
pub open spec fn file_objects(v: Seq<FileInfo>) -> Seq<JsonView> {
    v.map_values(|f: FileInfo| script_file(f))
}

pub const FILES_OPEN: &'static str =
    "if(el.tagName!=='INPUT'||el.type!=='file')\
     throw new Error('element is not a file input');var _files=";

pub const FILES_CLOSE: &'static str =
    ";var dt=new DataTransfer();for(var i=0;i<_files.length;i++){var raw=\
     atob(_files[i].data);var bytes=new Uint8Array(raw.length);for(var j=0;j<raw.length;\
     j++)bytes[j]=raw.charCodeAt(j);dt.items.add(new File([bytes],_files[i].name,{\
     type:_files[i].mime}));}el.files=dt.files;el.dispatchEvent(new Event('input',{\
     bubbles:true}));el.dispatchEvent(new Event('change',{bubbles:true}));return null";

/// The script that puts files into what was found.
pub open spec fn files_script(files: Seq<FileInfo>) -> Seq<char> {
    FILES_OPEN@ + document(JsonView::Array(file_objects(files))) + FILES_CLOSE@
}

/// Puts files into a file input.
pub fn element_set_files(body: &SetFilesReq) -> (r: Evaluation)
    ensures
        r@ == quietly(
            on_element(
                body.selector@,
                body.index,
                optional(body.using),
                files_script(body.files@),
            ),
        ),
{
    let mut list: Vec<Json> = Vec::new();
    let mut i: usize = 0;
    while i < body.files.len()
        invariant
            i == list@.len(),
            i <= body.files@.len(),
            forall|k: int| 0 <= k < i ==> (#[trigger] list@[k])@ == script_file(body.files@[k]),
        decreases body.files@.len() - i,
    {
        let f = &body.files[i];
        let file = object_1("data", text_value(f.data.as_str()));
        let file = with_member(file, "mime", text_value(f.mime.as_str()));
        list.push(with_member(file, "name", text_value(f.name.as_str())));
        i = i + 1;
    }
    assert(values(list@) =~= file_objects(body.files@));
    let mut js = FILES_OPEN.to_owned();
    js.append(write_array(&list).as_str());
    js.append(FILES_CLOSE);
    run_quietly(eval_on_element(body.selector.as_str(), body.index, &body.using, js.as_str()))
}

pub const CLICK_OPEN: &'static str = r#"el.scrollIntoView({block:'center',inline:'center'});
           var __r=el.getBoundingClientRect();
           var __x=Math.round(__r.left + (__r.width / 2));
           var __y=Math.round(__r.top + (__r.height / 2));
           if(typeof el.focus==='function')el.focus();
           "#;

pub const CLICK_MIDDLE: &'static str = r#"
           if(typeof el.click==='function'){el.click();}else{"#;

pub const CLICK_CLOSE: &'static str = r#"}
           return null"#;

/// The script that clicks an element: it scrolls to it, gives it the focus, and dispatches the
/// events of a pointer that comes over the middle of the element and is pressed and released
/// there.
pub open spec fn click_script() -> Seq<char> {
    CLICK_OPEN@ + pointer_event("pointerover"@, "el"@, "__x"@, "__y"@, 0, 0) + "\n           "@
        + mouse_event("mouseover"@, "el"@, "__x"@, "__y"@, 0, 0) + "\n           "@
        + pointer_event("pointermove"@, "el"@, "__x"@, "__y"@, 0, 0) + "\n           "@
        + mouse_event("mousemove"@, "el"@, "__x"@, "__y"@, 0, 0) + "\n           "@
        + pointer_event("pointerdown"@, "el"@, "__x"@, "__y"@, 0, 1) + "\n           "@
        + mouse_event("mousedown"@, "el"@, "__x"@, "__y"@, 0, 1) + "\n           "@
        + pointer_event("pointerup"@, "el"@, "__x"@, "__y"@, 0, 0) + "\n           "@
        + mouse_event("mouseup"@, "el"@, "__x"@, "__y"@, 0, 0) + CLICK_MIDDLE@
        + mouse_event("click"@, "el"@, "__x"@, "__y"@, 0, 0) + CLICK_CLOSE@
}

fn write_click_script() -> (r: String)
    ensures
        r@ == click_script(),
{
    let mut js = CLICK_OPEN.to_owned();
    js.append(dispatch_pointer_event_js("pointerover", "el", "__x", "__y", 0, 0).as_str());
    js.append("\n           ");
    js.append(dispatch_mouse_event_js("mouseover", "el", "__x", "__y", 0, 0).as_str());
    js.append("\n           ");
    js.append(dispatch_pointer_event_js("pointermove", "el", "__x", "__y", 0, 0).as_str());
    js.append("\n           ");
    js.append(dispatch_mouse_event_js("mousemove", "el", "__x", "__y", 0, 0).as_str());
    js.append("\n           ");
    js.append(dispatch_pointer_event_js("pointerdown", "el", "__x", "__y", 0, 1).as_str());
    js.append("\n           ");
    js.append(dispatch_mouse_event_js("mousedown", "el", "__x", "__y", 0, 1).as_str());
    js.append("\n           ");
    js.append(dispatch_pointer_event_js("pointerup", "el", "__x", "__y", 0, 0).as_str());
    js.append("\n           ");
    js.append(dispatch_mouse_event_js("mouseup", "el", "__x", "__y", 0, 0).as_str());
    js.append(CLICK_MIDDLE);
    js.append(dispatch_mouse_event_js("click", "el", "__x", "__y", 0, 0).as_str());
    js.append(CLICK_CLOSE);
    js
}

/// Clicks an element.
pub fn element_click(body: &ElemReq) -> (r: Evaluation)
    ensures
        r@ == quietly(on_request(*body, click_script())),
{
    run_quietly(for_request(body, write_click_script().as_str()))
}

pub const ACTIVE_JS: &'static str = "return window.__WEBDRIVER__.getActiveElement()";

/// Finds the element that has the focus.
pub fn element_active() -> (r: Evaluation)
    ensures
        r@ == reporting(ACTIVE_JS@, "element"@),
{
    run_reporting(ACTIVE_JS.to_owned(), "element")
}

} // verus!
