use tauri_webdriver::plugin::actions::{actions_perform, actions_release, ActionStep};
use tauri_webdriver::plugin::element::{
    element_active, element_attribute, element_clear, element_click, element_computed_label,
    element_computed_role, element_displayed, element_enabled, element_property, element_rect,
    element_selected, element_send_keys, element_set_files, element_shadow, element_tag,
    element_text,
};
use tauri_webdriver::plugin::error::ApiError;
use tauri_webdriver::plugin::eval::{prepare_as, Evaluation, Job, ReplyWith};
use tauri_webdriver::plugin::events::{dispatch_mouse_event_js, dispatch_pointer_event_js};
use tauri_webdriver::plugin::find::{element_find, element_find_from, shadow_find};
use tauri_webdriver::plugin::page::{
    alert_accept, alert_dismiss, alert_get_text, alert_send_text, cookie_add, cookie_delete,
    cookie_delete_all, cookie_get, cookie_get_all, get_source, navigate_back, navigate_current,
    navigate_forward, navigate_refresh, navigate_title, navigate_url, script_execute,
    script_execute_async,
};
use tauri_webdriver::plugin::picture::{print_page, screenshot, screenshot_element};
use tauri_webdriver::plugin::requests::{
    default_mime, default_path, AlertTextReq, CookieAddReq, CookieData, CookieNameReq,
    ElemAttrReq, ElemReq, FileInfo, FindFromReq, FindReq, NavReq, ScriptReq, SendKeysReq,
    SetFilesReq, ShadowFindReq,
};
use tauri_webdriver::plugin::state::{build_frame_prefix, frame_switch, in_frame, ServerState};
use tauri_webdriver::value::Json;

fn wrapped(e: &Evaluation) -> &str {
    match &e.job {
        Job::Wrapped(s) => s,
        _ => panic!("a wrapped script was due"),
    }
}

fn assert_quiet(e: Evaluation, script: &str) {
    assert_eq!(wrapped(&e), script);
    assert!(matches!(e.how, ReplyWith::Null));
}

fn assert_reporting(e: Evaluation, script: &str, key: &str) {
    assert_eq!(wrapped(&e), script);
    match &e.how {
        ReplyWith::Member(k) => assert_eq!(k, key),
        _ => panic!("a member was due"),
    }
}

fn elem_req(selector: &str, index: usize, using: Option<&str>) -> ElemReq {
    ElemReq { selector: selector.to_owned(), index, using: using.map(|u| u.to_owned()) }
}

enum Expected {
    Run(&'static str),
    Wait(u64),
}

fn assert_steps(steps: Result<Vec<ActionStep>, ApiError>, expected: Vec<Expected>) {
    let steps = match steps {
        Ok(s) => s,
        Err(_) => panic!("steps were due"),
    };
    assert_eq!(steps.len(), expected.len());
    for (s, e) in steps.into_iter().zip(expected) {
        match (s, e) {
            (ActionStep::Run(run), Expected::Run(script)) => assert_quiet(run, script),
            (ActionStep::Wait { milliseconds }, Expected::Wait(n)) => assert_eq!(milliseconds, n),
            _ => panic!("a step of the other kind was due"),
        }
    }
}

#[test]
fn pointer_event_script() {
    assert_eq!(
        dispatch_pointer_event_js("pointerup", "document.body", "10", "y+1", 2, 255),
        r#"(function(){var __t=document.body;if(!__t||typeof PointerEvent==='undefined')return;
            __t.dispatchEvent(new PointerEvent('pointerup',{
                clientX:10,
                clientY:y+1,
                button:2,
                buttons:255,
                bubbles:true,
                cancelable:true,
                composed:true,
                pointerId:1,
                pointerType:'mouse',
                isPrimary:true
            }));})();"#
    );
}

#[test]
fn mouse_event_script() {
    assert_eq!(
        dispatch_mouse_event_js("click", "el", "__x", "__y", 0, 1),
        r#"(function(){var __t=el;if(!__t)return;
            __t.dispatchEvent(new MouseEvent('click',{
                clientX:__x,
                clientY:__y,
                button:0,
                buttons:1,
                bubbles:true,
                cancelable:true,
                composed:true
            }));})();"#
    );
}

#[test]
fn defaults_of_requests() {
    assert_eq!(default_mime(), "application/octet-stream");
    assert_eq!(default_path(), "/");
}

#[test]
fn element_text_plain() {
    assert_reporting(
        element_text(&elem_req("a[x=\"1\"]\n", 2, None)),
        r#"var el=document.querySelectorAll("a[x=\"1\"]\n")[2];if(!el)throw new Error("element not found");return el.textContent||''"#,
        "text",
    );
}

#[test]
fn element_text_xpath() {
    assert_reporting(
        element_text(&elem_req("a[x=\"1\"]\n", 2, Some("xpath"))),
        r#"var __xr=document.evaluate("a[x=\"1\"]\n",document,null,XPathResult.ORDERED_NODE_SNAPSHOT_TYPE,null);var el=__xr.snapshotItem(2);if(!el)throw new Error("element not found");return el.textContent||''"#,
        "text",
    );
}

#[test]
fn element_text_shadow() {
    assert_reporting(
        element_text(&elem_req("a[x=\"1\"]\n", 2, Some("shadow"))),
        r#"var el=window.__WEBDRIVER__.findElementInShadow("a[x=\"1\"]\n");if(!el)throw new Error("shadow element not found or stale");return el.textContent||''"#,
        "text",
    );
}

#[test]
fn element_text_css() {
    assert_reporting(
        element_text(&elem_req("a[x=\"1\"]\n", 2, Some("css"))),
        r#"var el=document.querySelectorAll("a[x=\"1\"]\n")[2];if(!el)throw new Error("element not found");return el.textContent||''"#,
        "text",
    );
}

#[test]
fn element_tag_script() {
    assert_reporting(
        element_tag(&elem_req("a[x=\"1\"]\n", 2, None)),
        r#"var el=document.querySelectorAll("a[x=\"1\"]\n")[2];if(!el)throw new Error("element not found");return el.tagName.toLowerCase()"#,
        "tag",
    );
}

#[test]
fn element_displayed_script() {
    assert_reporting(
        element_displayed(&elem_req("a[x=\"1\"]\n", 2, None)),
        r#"var el=document.querySelectorAll("a[x=\"1\"]\n")[2];if(!el)throw new Error("element not found");var s=window.getComputedStyle(el);return s.display!=='none'&&s.visibility!=='hidden'&&s.opacity!=='0'"#,
        "displayed",
    );
}

#[test]
fn element_enabled_script() {
    assert_reporting(
        element_enabled(&elem_req("a[x=\"1\"]\n", 2, None)),
        r#"var el=document.querySelectorAll("a[x=\"1\"]\n")[2];if(!el)throw new Error("element not found");return !el.disabled"#,
        "enabled",
    );
}

#[test]
fn element_selected_script() {
    assert_reporting(
        element_selected(&elem_req("a[x=\"1\"]\n", 2, None)),
        r#"var el=document.querySelectorAll("a[x=\"1\"]\n")[2];if(!el)throw new Error("element not found");return el.selected||el.checked||false"#,
        "selected",
    );
}

#[test]
fn element_shadow_script() {
    assert_reporting(
        element_shadow(&elem_req("a[x=\"1\"]\n", 2, None)),
        r#"var el=document.querySelectorAll("a[x=\"1\"]\n")[2];if(!el)throw new Error("element not found");return el.shadowRoot !== null"#,
        "hasShadow",
    );
}

#[test]
fn element_computed_role_script() {
    assert_reporting(
        element_computed_role(&elem_req("a[x=\"1\"]\n", 2, None)),
        r#"var el=document.querySelectorAll("a[x=\"1\"]\n")[2];if(!el)throw new Error("element not found");var tag=el.tagName.toLowerCase();
var role=el.getAttribute('role');
if(role)return role;
var map={button:'button',a:'link',h1:'heading',h2:'heading',h3:'heading',h4:'heading',h5:'heading',h6:'heading',
input:'textbox',textarea:'textbox',select:'combobox',option:'option',ul:'list',ol:'list',li:'listitem',
table:'table',tr:'row',td:'cell',th:'columnheader',img:'img',nav:'navigation',main:'main',header:'banner',
footer:'contentinfo',aside:'complementary',form:'form',details:'group',summary:'button',dialog:'dialog',
progress:'progressbar',meter:'meter'};
if(tag==='input'){var t=(el.getAttribute('type')||'text').toLowerCase();
if(t==='checkbox')return 'checkbox';if(t==='radio')return 'radio';
if(t==='range')return 'slider';if(t==='number')return 'spinbutton';
if(t==='search')return 'searchbox';return 'textbox'}
if(tag==='a'&&el.hasAttribute('href'))return 'link';
return map[tag]||'generic'"#,
        "role",
    );
}

#[test]
fn element_computed_label_script() {
    assert_reporting(
        element_computed_label(&elem_req("a[x=\"1\"]\n", 2, None)),
        r#"var el=document.querySelectorAll("a[x=\"1\"]\n")[2];if(!el)throw new Error("element not found");var lblBy=el.getAttribute('aria-labelledby');
if(lblBy){var ids=lblBy.split(/\s+/);var parts=[];
for(var i=0;i<ids.length;i++){var e=document.getElementById(ids[i]);if(e)parts.push(e.textContent.trim())}
if(parts.length)return parts.join(' ')}
var lbl=el.getAttribute('aria-label');if(lbl)return lbl;
if(el.id){var labels=document.querySelectorAll('label[for="'+el.id+'"]');
if(labels.length)return labels[0].textContent.trim()}
if(el.placeholder)return el.placeholder;
if(el.alt)return el.alt;
if(el.title)return el.title;
return ''"#,
        "label",
    );
}

#[test]
fn element_rect_script() {
    let e = element_rect(&elem_req("a[x=\"1\"]\n", 2, None));
    assert_eq!(wrapped(&e), r#"var el=document.querySelectorAll("a[x=\"1\"]\n")[2];if(!el)throw new Error("element not found");var r=el.getBoundingClientRect();return{x:r.x,y:r.y,width:r.width,height:r.height}"#);
    assert!(matches!(e.how, ReplyWith::Whole));
}

#[test]
fn element_clear_script() {
    assert_quiet(
        element_clear(&elem_req("a[x=\"1\"]\n", 2, None)),
        r#"var el=document.querySelectorAll("a[x=\"1\"]\n")[2];if(!el)throw new Error("element not found");el.focus();el.value='';el.dispatchEvent(new Event('input',{bubbles:true}));el.dispatchEvent(new Event('change',{bubbles:true}));return null"#,
    );
}

#[test]
fn element_attribute_script() {
    assert_reporting(
        element_attribute(&ElemAttrReq {
            selector: "a[x=\"1\"]\n".to_owned(),
            index: 2,
            name: "da\"ta".to_owned(),
            using: None,
        }),
        r#"var el=document.querySelectorAll("a[x=\"1\"]\n")[2];if(!el)throw new Error("element not found");return el.getAttribute("da\"ta")"#,
        "value",
    );
}

#[test]
fn element_property_script() {
    assert_reporting(
        element_property(&ElemAttrReq {
            selector: "a[x=\"1\"]\n".to_owned(),
            index: 2,
            name: "da\"ta".to_owned(),
            using: None,
        }),
        r#"var el=document.querySelectorAll("a[x=\"1\"]\n")[2];if(!el)throw new Error("element not found");return el["da\"ta"]"#,
        "value",
    );
}

#[test]
fn element_send_keys_script() {
    assert_quiet(
        element_send_keys(&SendKeysReq {
            selector: "a[x=\"1\"]\n".to_owned(),
            index: 2,
            text: "tab\tquote\"back\\slash\u{e9}\u{2028}".to_owned(),
            using: Some("xpath".to_owned()),
        }),
        r#"var __xr=document.evaluate("a[x=\"1\"]\n",document,null,XPathResult.ORDERED_NODE_SNAPSHOT_TYPE,null);var el=__xr.snapshotItem(2);if(!el)throw new Error("element not found");el.focus();el.value+="tab\tquote\"back\\slashé ";el.dispatchEvent(new Event('input',{bubbles:true}));el.dispatchEvent(new Event('change',{bubbles:true}));return null"#,
    );
}

#[test]
fn element_set_files_script() {
    assert_quiet(
        element_set_files(&SetFilesReq {
            selector: "input".to_owned(),
            index: 0,
            files: vec![
                FileInfo {
                    name: "a.txt".to_owned(),
                    data: "aGk=".to_owned(),
                    mime: "text/plain".to_owned(),
                },
                FileInfo { name: "b".to_owned(), data: String::new(), mime: default_mime() },
            ],
            using: None,
        }),
        r#"var el=document.querySelectorAll("input")[0];if(!el)throw new Error("element not found");if(el.tagName!=='INPUT'||el.type!=='file')throw new Error('element is not a file input');var _files=[{"data":"aGk=","mime":"text/plain","name":"a.txt"},{"data":"","mime":"application/octet-stream","name":"b"}];var dt=new DataTransfer();for(var i=0;i<_files.length;i++){var raw=atob(_files[i].data);var bytes=new Uint8Array(raw.length);for(var j=0;j<raw.length;j++)bytes[j]=raw.charCodeAt(j);dt.items.add(new File([bytes],_files[i].name,{type:_files[i].mime}));}el.files=dt.files;el.dispatchEvent(new Event('input',{bubbles:true}));el.dispatchEvent(new Event('change',{bubbles:true}));return null"#,
    );
}

#[test]
fn element_click_script() {
    assert_quiet(
        element_click(&elem_req("#go", 0, None)),
        r##"var el=document.querySelectorAll("#go")[0];if(!el)throw new Error("element not found");el.scrollIntoView({block:'center',inline:'center'});
           var __r=el.getBoundingClientRect();
           var __x=Math.round(__r.left + (__r.width / 2));
           var __y=Math.round(__r.top + (__r.height / 2));
           if(typeof el.focus==='function')el.focus();
           (function(){var __t=el;if(!__t||typeof PointerEvent==='undefined')return;
            __t.dispatchEvent(new PointerEvent('pointerover',{
                clientX:__x,
                clientY:__y,
                button:0,
                buttons:0,
                bubbles:true,
                cancelable:true,
                composed:true,
                pointerId:1,
                pointerType:'mouse',
                isPrimary:true
            }));})();
           (function(){var __t=el;if(!__t)return;
            __t.dispatchEvent(new MouseEvent('mouseover',{
                clientX:__x,
                clientY:__y,
                button:0,
                buttons:0,
                bubbles:true,
                cancelable:true,
                composed:true
            }));})();
           (function(){var __t=el;if(!__t||typeof PointerEvent==='undefined')return;
            __t.dispatchEvent(new PointerEvent('pointermove',{
                clientX:__x,
                clientY:__y,
                button:0,
                buttons:0,
                bubbles:true,
                cancelable:true,
                composed:true,
                pointerId:1,
                pointerType:'mouse',
                isPrimary:true
            }));})();
           (function(){var __t=el;if(!__t)return;
            __t.dispatchEvent(new MouseEvent('mousemove',{
                clientX:__x,
                clientY:__y,
                button:0,
                buttons:0,
                bubbles:true,
                cancelable:true,
                composed:true
            }));})();
           (function(){var __t=el;if(!__t||typeof PointerEvent==='undefined')return;
            __t.dispatchEvent(new PointerEvent('pointerdown',{
                clientX:__x,
                clientY:__y,
                button:0,
                buttons:1,
                bubbles:true,
                cancelable:true,
                composed:true,
                pointerId:1,
                pointerType:'mouse',
                isPrimary:true
            }));})();
           (function(){var __t=el;if(!__t)return;
            __t.dispatchEvent(new MouseEvent('mousedown',{
                clientX:__x,
                clientY:__y,
                button:0,
                buttons:1,
                bubbles:true,
                cancelable:true,
                composed:true
            }));})();
           (function(){var __t=el;if(!__t||typeof PointerEvent==='undefined')return;
            __t.dispatchEvent(new PointerEvent('pointerup',{
                clientX:__x,
                clientY:__y,
                button:0,
                buttons:0,
                bubbles:true,
                cancelable:true,
                composed:true,
                pointerId:1,
                pointerType:'mouse',
                isPrimary:true
            }));})();
           (function(){var __t=el;if(!__t)return;
            __t.dispatchEvent(new MouseEvent('mouseup',{
                clientX:__x,
                clientY:__y,
                button:0,
                buttons:0,
                bubbles:true,
                cancelable:true,
                composed:true
            }));})();
           if(typeof el.click==='function'){el.click();}else{(function(){var __t=el;if(!__t)return;
            __t.dispatchEvent(new MouseEvent('click',{
                clientX:__x,
                clientY:__y,
                button:0,
                buttons:0,
                bubbles:true,
                cancelable:true,
                composed:true
            }));})();}
           return null"##,
    );
}

#[test]
fn element_active_script() {
    assert_reporting(
        element_active(),
        "return window.__WEBDRIVER__.getActiveElement()",
        "element",
    );
}

#[test]
fn element_find_xpath() {
    assert_reporting(
        element_find(&FindReq { using: "xpath".to_owned(), value: "//a[@b=\"c\"]".to_owned() }),
        r#"var r=document.evaluate("//a[@b=\"c\"]",document,null,XPathResult.ORDERED_NODE_SNAPSHOT_TYPE,null);var a=[];for(var i=0;i<r.snapshotLength;i++)a.push({selector:"//a[@b=\"c\"]",index:i,using:"xpath"});return a"#,
        "elements",
    );
}

#[test]
fn element_find_css() {
    assert_reporting(
        element_find(&FindReq { using: "css".to_owned(), value: "//a[@b=\"c\"]".to_owned() }),
        r#"var els=document.querySelectorAll("//a[@b=\"c\"]");var a=[];for(var i=0;i<els.length;i++)a.push({selector:"//a[@b=\"c\"]",index:i});return a"#,
        "elements",
    );
}

#[test]
fn shadow_find_css() {
    assert_reporting(
        shadow_find(&ShadowFindReq {
            host_selector: "my-host".to_owned(),
            host_index: 3,
            host_using: None,
            using: "css".to_owned(),
            value: "p.x".to_owned(),
        }),
        r#"if(!window.__wdShadowCtr)window.__wdShadowCtr=0;var host=window.__WEBDRIVER__.findElement("my-host",3);if(!host)throw new Error('host element not found');var sr=host.shadowRoot;if(!sr)throw new Error('no shadow root');var els=sr.querySelectorAll("p.x");var a=[];for(var i=0;i<els.length;i++){var id='wds-'+(++window.__wdShadowCtr);window.__WEBDRIVER__.__shadowCache[id]=els[i];a.push({selector:id,index:0,using:'shadow'})}return a"#,
        "elements",
    );
}

#[test]
fn shadow_find_xpath() {
    assert_reporting(
        shadow_find(&ShadowFindReq {
            host_selector: "my-host".to_owned(),
            host_index: 3,
            host_using: Some("xpath".to_owned()),
            using: "css".to_owned(),
            value: "p.x".to_owned(),
        }),
        r#"if(!window.__wdShadowCtr)window.__wdShadowCtr=0;var host=window.__WEBDRIVER__.findElementByXPath("my-host",3);if(!host)throw new Error('host element not found');var sr=host.shadowRoot;if(!sr)throw new Error('no shadow root');var els=sr.querySelectorAll("p.x");var a=[];for(var i=0;i<els.length;i++){var id='wds-'+(++window.__wdShadowCtr);window.__WEBDRIVER__.__shadowCache[id]=els[i];a.push({selector:id,index:0,using:'shadow'})}return a"#,
        "elements",
    );
}

#[test]
fn element_find_from_css_css() {
    assert_reporting(
        element_find_from(&FindFromReq {
            parent_selector: "#p".to_owned(),
            parent_index: 4,
            parent_using: None,
            using: "css".to_owned(),
            value: "li".to_owned(),
        }),
        r##"if(!window.__wdFindFromCtr)window.__wdFindFromCtr=0;var parent=document.querySelectorAll("#p")[4];if(!parent)throw new Error('parent element not found');var els=parent.querySelectorAll("li");var a=[];for(var i=0;i<els.length;i++){var id='wd-'+(++window.__wdFindFromCtr);els[i].setAttribute('data-wd-id',id);a.push({selector:'[data-wd-id="'+id+'"]',index:0})}return a"##,
        "elements",
    );
}

#[test]
fn element_find_from_css_xpath() {
    assert_reporting(
        element_find_from(&FindFromReq {
            parent_selector: "#p".to_owned(),
            parent_index: 4,
            parent_using: None,
            using: "xpath".to_owned(),
            value: "li".to_owned(),
        }),
        r##"if(!window.__wdFindFromCtr)window.__wdFindFromCtr=0;var parent=document.querySelectorAll("#p")[4];if(!parent)throw new Error('parent element not found');var r=document.evaluate("li",parent,null,XPathResult.ORDERED_NODE_SNAPSHOT_TYPE,null);var a=[];for(var i=0;i<r.snapshotLength;i++){var e=r.snapshotItem(i);var id='wd-'+(++window.__wdFindFromCtr);e.setAttribute('data-wd-id',id);a.push({selector:'[data-wd-id="'+id+'"]',index:0})}return a"##,
        "elements",
    );
}

#[test]
fn element_find_from_xpath_css() {
    assert_reporting(
        element_find_from(&FindFromReq {
            parent_selector: "#p".to_owned(),
            parent_index: 4,
            parent_using: Some("xpath".to_owned()),
            using: "css".to_owned(),
            value: "li".to_owned(),
        }),
        r##"if(!window.__wdFindFromCtr)window.__wdFindFromCtr=0;var __xr=document.evaluate("#p",document,null,XPathResult.ORDERED_NODE_SNAPSHOT_TYPE,null);var parent=__xr.snapshotItem(4);if(!parent)throw new Error('parent element not found');var els=parent.querySelectorAll("li");var a=[];for(var i=0;i<els.length;i++){var id='wd-'+(++window.__wdFindFromCtr);els[i].setAttribute('data-wd-id',id);a.push({selector:'[data-wd-id="'+id+'"]',index:0})}return a"##,
        "elements",
    );
}

#[test]
fn element_find_from_xpath_xpath() {
    assert_reporting(
        element_find_from(&FindFromReq {
            parent_selector: "#p".to_owned(),
            parent_index: 4,
            parent_using: Some("xpath".to_owned()),
            using: "xpath".to_owned(),
            value: "li".to_owned(),
        }),
        r##"if(!window.__wdFindFromCtr)window.__wdFindFromCtr=0;var __xr=document.evaluate("#p",document,null,XPathResult.ORDERED_NODE_SNAPSHOT_TYPE,null);var parent=__xr.snapshotItem(4);if(!parent)throw new Error('parent element not found');var r=document.evaluate("li",parent,null,XPathResult.ORDERED_NODE_SNAPSHOT_TYPE,null);var a=[];for(var i=0;i<r.snapshotLength;i++){var e=r.snapshotItem(i);var id='wd-'+(++window.__wdFindFromCtr);e.setAttribute('data-wd-id',id);a.push({selector:'[data-wd-id="'+id+'"]',index:0})}return a"##,
        "elements",
    );
}

#[test]
fn script_execute_script() {
    assert_reporting(
        script_execute(&ScriptReq {
            script: "return arguments[0]".to_owned(),
            args: vec![
                Json::Unsigned(1),
                Json::Negative(-2),
                Json::Float { json: "1.5".to_owned(), plain: "1.5".to_owned() },
                Json::Str("x".to_owned()),
                Json::Null,
                Json::Bool(true),
                Json::Object(vec![("a".to_owned(), Json::Array(vec![]))]),
            ],
        }),
        r#"function __wdResolve(v){if(Array.isArray(v)){for(var i=0;i<v.length;i++){v[i]=__wdResolve(v[i])}return v}if(v&&typeof v==='object'&&v.__wd_resolve){var r=v.__wd_resolve;if(r.using==='xpath'){var xr=document.evaluate(r.selector,document,null,XPathResult.ORDERED_NODE_SNAPSHOT_TYPE,null);return xr.snapshotItem(r.index)}return document.querySelectorAll(r.selector)[r.index]}if(v&&typeof v==='object'&&!Array.isArray(v)){for(var k in v){if(v.hasOwnProperty(k)){v[k]=__wdResolve(v[k])}}}return v}var __args=__wdResolve([1,-2,1.5,"x",null,true,{"a":[]}]);return (function(){return arguments[0]}).apply(null,__args)"#,
        "value",
    );
}

#[test]
fn script_execute_async_script() {
    let e = script_execute_async(&ScriptReq {
        script: "arguments[0](7)".to_owned(),
        args: vec![],
    });
    assert_eq!(
        prepare_as(&ServerState::new(), &e.job, "the-id"),
        r#"(function(){function __wdResolve(v){if(Array.isArray(v)){for(var i=0;i<v.length;i++){v[i]=__wdResolve(v[i])}return v}if(v&&typeof v==='object'&&v.__wd_resolve){var r=v.__wd_resolve;if(r.using==='xpath'){var xr=document.evaluate(r.selector,document,null,XPathResult.ORDERED_NODE_SNAPSHOT_TYPE,null);return xr.snapshotItem(r.index)}return document.querySelectorAll(r.selector)[r.index]}if(v&&typeof v==='object'&&!Array.isArray(v)){for(var k in v){if(v.hasOwnProperty(k)){v[k]=__wdResolve(v[k])}}}return v}var __args=__wdResolve([]);var __done=function(r){window.__WEBDRIVER__.resolve("the-id",r)};__args.push(__done);try{(function(){arguments[0](7)}).apply(null,__args)}catch(__e){window.__WEBDRIVER__.resolve("the-id",{error:__e.name,message:__e.message,stacktrace:__e.stack||""})}})();"#
    );
    assert!(matches!(&e.how, ReplyWith::Member(k) if k == "value"));
}

#[test]
fn navigate_url_script() {
    assert_quiet(
        navigate_url(&NavReq { url: "http://x/?q=\"1\"".to_owned() }),
        r#"window.location.href="http://x/?q=\"1\"";return null"#,
    );
}

#[test]
fn navigate_current_script() {
    assert_reporting(
        navigate_current(),
        "return window.location.href",
        "url",
    );
}

#[test]
fn navigate_title_script() {
    assert_reporting(
        navigate_title(),
        "return window.document.title",
        "title",
    );
}

#[test]
fn get_source_script() {
    assert_reporting(
        get_source(),
        "return document.documentElement.outerHTML",
        "source",
    );
}

#[test]
fn alert_get_text_script() {
    assert_reporting(
        alert_get_text(),
        "var d=window.__WEBDRIVER__.__dialog;if(!d.open)throw new Error('no such alert');return d.text",
        "text",
    );
}

#[test]
fn cookie_get_all_script() {
    assert_reporting(
        cookie_get_all(),
        r#"
var store = window.__WEBDRIVER__.cookies;
var cookies = [];
var keys = Object.keys(store);
for (var i = 0; i < keys.length; i++) {
    cookies.push(store[keys[i]]);
}
return cookies;
"#,
        "cookies",
    );
}

#[test]
fn navigate_back_script() {
    assert_quiet(
        navigate_back(),
        "window.history.back();return null",
    );
}

#[test]
fn navigate_forward_script() {
    assert_quiet(
        navigate_forward(),
        "window.history.forward();return null",
    );
}

#[test]
fn navigate_refresh_script() {
    assert_quiet(
        navigate_refresh(),
        "window.location.reload();return null",
    );
}

#[test]
fn alert_dismiss_script() {
    assert_quiet(
        alert_dismiss(),
        "var d=window.__WEBDRIVER__.__dialog;if(!d.open)throw new Error('no such alert');if(d.type==='confirm')d.response=false;if(d.type==='prompt')d.response=null;d.open=false;return null",
    );
}

#[test]
fn alert_accept_script() {
    assert_quiet(
        alert_accept(),
        "var d=window.__WEBDRIVER__.__dialog;if(!d.open)throw new Error('no such alert');if(d.type==='confirm')d.response=true;if(d.type==='prompt'&&d.response===null)d.response=d.defaultValue||'';d.open=false;return null",
    );
}

#[test]
fn cookie_delete_all_script() {
    assert_quiet(
        cookie_delete_all(),
        "var s=window.__WEBDRIVER__.cookies;var k=Object.keys(s);for(var i=0;i<k.length;i++)delete s[k[i]];return null",
    );
}

#[test]
fn alert_send_text_script() {
    assert_quiet(
        alert_send_text(&AlertTextReq { text: "it's".to_owned() }),
        r#"var d=window.__WEBDRIVER__.__dialog;if(!d.open)throw new Error('no such alert');if(d.type!=='prompt')throw new Error('no such alert');d.response="it's";return null"#,
    );
}

#[test]
fn cookie_get_script() {
    assert_reporting(
        cookie_get(&CookieNameReq { name: "sid".to_owned() }),
        r#"var c=window.__WEBDRIVER__.cookies["sid"];return c||null"#,
        "cookie",
    );
}

#[test]
fn cookie_delete_script() {
    assert_quiet(
        cookie_delete(&CookieNameReq { name: "s\"id".to_owned() }),
        r#"delete window.__WEBDRIVER__.cookies["s\"id"];return null"#,
    );
}

#[test]
fn cookie_add_full() {
    assert_quiet(
        cookie_add(&CookieAddReq {
            cookie: CookieData {
                name: "n".to_owned(),
                value: "v".to_owned(),
                path: "/p".to_owned(),
                domain: Some("example.org".to_owned()),
                secure: true,
                http_only: false,
                expiry: Some(1700000000),
            },
        }),
        r#"window.__WEBDRIVER__.cookies["n"]={name:"n",value:"v",path:"/p",domain:"example.org",secure:true,httpOnly:false,expiry:1700000000,sameSite:"Lax"};return null"#,
    );
}

#[test]
fn cookie_add_defaults() {
    assert_quiet(
        cookie_add(&CookieAddReq {
            cookie: CookieData {
                name: "n".to_owned(),
                value: "v".to_owned(),
                path: default_path(),
                domain: None,
                secure: false,
                http_only: true,
                expiry: None,
            },
        }),
        r#"window.__WEBDRIVER__.cookies["n"]={name:"n",value:"v",path:"/",domain:window.location.hostname,secure:false,httpOnly:true,expiry:null,sameSite:"Lax"};return null"#,
    );
}

#[test]
fn screenshot_script() {
    let e = screenshot();
    assert_eq!(
        prepare_as(&ServerState::new(), &e.job, "id-1"),
        r#"(function(){try{
var el=document.documentElement;
var w=Math.max(el.scrollWidth,el.clientWidth);
var h=Math.max(el.scrollHeight,el.clientHeight);
var xml=new XMLSerializer().serializeToString(el);
var svg='<svg xmlns="http://www.w3.org/2000/svg" width="'+w+'" height="'+h+'">'
+'<foreignObject width="100%" height="100%">'+xml+'</foreignObject></svg>';
var c=document.createElement('canvas');c.width=w;c.height=h;
var ctx=c.getContext('2d');var img=new Image();
img.onload=function(){try{ctx.drawImage(img,0,0);
var d=c.toDataURL('image/png').split(',')[1];
window.__WEBDRIVER__.resolve("id-1",d)}
catch(e){window.__WEBDRIVER__.resolve("id-1",
{error:"SecurityError",message:e.message,stacktrace:""})}};
img.onerror=function(){window.__WEBDRIVER__.resolve("id-1",
{error:"ScreenshotError",message:"SVG render failed",stacktrace:""})};
img.src='data:image/svg+xml;charset=utf-8,'+encodeURIComponent(svg)
}catch(e){window.__WEBDRIVER__.resolve("id-1",
{error:e.name,message:e.message,stacktrace:e.stack||""})}})()"#
    );
    assert!(matches!(&e.how, ReplyWith::Member(k) if k == "data"));
}

#[test]
fn print_page_script() {
    let e = print_page();
    assert_eq!(
        prepare_as(&ServerState::new(), &e.job, "id-1"),
        r#"(function(){try{
var el=document.documentElement;
var w=Math.max(el.scrollWidth,el.clientWidth);
var h=Math.max(el.scrollHeight,el.clientHeight);
var xml=new XMLSerializer().serializeToString(el);
var svg='<svg xmlns="http://www.w3.org/2000/svg" width="'+w+'" height="'+h+'">'
+'<foreignObject width="100%" height="100%">'+xml+'</foreignObject></svg>';
var c=document.createElement('canvas');c.width=w;c.height=h;
var ctx=c.getContext('2d');var img=new Image();
img.onload=function(){try{ctx.drawImage(img,0,0);
var pngDataUrl=c.toDataURL('image/png');
var pngB64=pngDataUrl.split(',')[1];
var bin=atob(pngB64);var len=bin.length;
var imgW=w;var imgH=h;
var pageW=612;var pageH=792;
var scaleX=pageW/imgW;var scaleY=pageH/imgH;
var sc=Math.min(scaleX,scaleY);
var dw=Math.round(imgW*sc);var dh=Math.round(imgH*sc);
var objs=[];var offsets=[];
function addObj(s){offsets.push(objs.join('').length);objs.push(s)}
addObj('%PDF-1.4\n');
addObj('1 0 obj\n<< /Type /Catalog /Pages 2 0 R >>\nendobj\n');
addObj('2 0 obj\n<< /Type /Pages /Kids [3 0 R] /Count 1 >>\nendobj\n');
addObj('3 0 obj\n<< /Type /Page /Parent 2 0 R /MediaBox [0 0 '+pageW+' '+pageH+'] /Contents 5 0 R /Resources << /XObject << /Img 4 0 R >> >> >>\nendobj\n');
var imgStream='4 0 obj\n<< /Type /XObject /Subtype /Image /Width '+imgW+' /Height '+imgH+' /ColorSpace /DeviceRGB /BitsPerComponent 8 /Filter /ASCIIHexDecode /Length '+(len*6+1)+' >>\nstream\n';
var hexParts=[];for(var i=0;i<len;i++){
var byte=bin.charCodeAt(i);
hexParts.push(('0'+byte.toString(16)).slice(-2))}
imgStream+=hexParts.join('')+'>\nendstream\nendobj\n';
addObj(imgStream);
var contentStr='q '+dw+' 0 0 '+dh+' 0 '+(pageH-dh)+' cm /Img Do Q';
addObj('5 0 obj\n<< /Length '+contentStr.length+' >>\nstream\n'+contentStr+'\nendstream\nendobj\n');
var body=objs.join('');
var xrefOff=body.length;
var xref='xref\n0 6\n0000000000 65535 f \n';
for(var j=1;j<offsets.length;j++){
xref+=('0000000000'+offsets[j]).slice(-10)+' 00000 n \n'}
xref+='trailer\n<< /Size 6 /Root 1 0 R >>\nstartxref\n'+xrefOff+'\n%%EOF';
var pdf=body+xref;
var pdfB64=btoa(pdf);
window.__WEBDRIVER__.resolve("id-1",pdfB64)}
catch(e){window.__WEBDRIVER__.resolve("id-1",
{error:e.name,message:e.message,stacktrace:e.stack||""})}};
img.onerror=function(){window.__WEBDRIVER__.resolve("id-1",
{error:"PrintError",message:"SVG render failed",stacktrace:""})};
img.src='data:image/svg+xml;charset=utf-8,'+encodeURIComponent(svg)
}catch(e){window.__WEBDRIVER__.resolve("id-1",
{error:e.name,message:e.message,stacktrace:e.stack||""})}})()"#
    );
    assert!(matches!(&e.how, ReplyWith::Member(k) if k == "data"));
}

#[test]
fn screenshot_element_script() {
    let e = screenshot_element(&elem_req("#a", 1, None));
    assert_eq!(
        prepare_as(&ServerState::new(), &e.job, "id-1"),
        r##"(function(){try{
var tgt=window.__WEBDRIVER__.findElement("#a",1);
if(!tgt){window.__WEBDRIVER__.resolve("id-1",
{error:"NoSuchElement",message:"element not found",stacktrace:""});return}
var rect=tgt.getBoundingClientRect();
var el=document.documentElement;
var w=Math.max(el.scrollWidth,el.clientWidth);
var h=Math.max(el.scrollHeight,el.clientHeight);
var xml=new XMLSerializer().serializeToString(el);
var svg='<svg xmlns="http://www.w3.org/2000/svg" width="'+w+'" height="'+h+'">'
+'<foreignObject width="100%" height="100%">'+xml+'</foreignObject></svg>';
var fc=document.createElement('canvas');fc.width=w;fc.height=h;
var fctx=fc.getContext('2d');var img=new Image();
img.onload=function(){try{fctx.drawImage(img,0,0);
var c=document.createElement('canvas');
c.width=Math.ceil(rect.width);c.height=Math.ceil(rect.height);
var ctx=c.getContext('2d');
ctx.drawImage(fc,rect.x,rect.y,rect.width,rect.height,0,0,rect.width,rect.height);
var d=c.toDataURL('image/png').split(',')[1];
window.__WEBDRIVER__.resolve("id-1",d)}
catch(e){window.__WEBDRIVER__.resolve("id-1",
{error:"SecurityError",message:e.message,stacktrace:""})}};
img.onerror=function(){window.__WEBDRIVER__.resolve("id-1",
{error:"ScreenshotError",message:"SVG render failed",stacktrace:""})};
img.src='data:image/svg+xml;charset=utf-8,'+encodeURIComponent(svg)
}catch(e){window.__WEBDRIVER__.resolve("id-1",
{error:e.name,message:e.message,stacktrace:e.stack||""})}})()
"##
    );
    assert!(matches!(&e.how, ReplyWith::Member(k) if k == "data"));
}

#[test]
fn screenshot_element_xpath_script() {
    let e = screenshot_element(&elem_req("//a", 0, Some("xpath")));
    assert_eq!(
        prepare_as(&ServerState::new(), &e.job, "id-1"),
        r#"(function(){try{
var tgt=window.__WEBDRIVER__.findElementByXPath("//a",0);
if(!tgt){window.__WEBDRIVER__.resolve("id-1",
{error:"NoSuchElement",message:"element not found",stacktrace:""});return}
var rect=tgt.getBoundingClientRect();
var el=document.documentElement;
var w=Math.max(el.scrollWidth,el.clientWidth);
var h=Math.max(el.scrollHeight,el.clientHeight);
var xml=new XMLSerializer().serializeToString(el);
var svg='<svg xmlns="http://www.w3.org/2000/svg" width="'+w+'" height="'+h+'">'
+'<foreignObject width="100%" height="100%">'+xml+'</foreignObject></svg>';
var fc=document.createElement('canvas');fc.width=w;fc.height=h;
var fctx=fc.getContext('2d');var img=new Image();
img.onload=function(){try{fctx.drawImage(img,0,0);
var c=document.createElement('canvas');
c.width=Math.ceil(rect.width);c.height=Math.ceil(rect.height);
var ctx=c.getContext('2d');
ctx.drawImage(fc,rect.x,rect.y,rect.width,rect.height,0,0,rect.width,rect.height);
var d=c.toDataURL('image/png').split(',')[1];
window.__WEBDRIVER__.resolve("id-1",d)}
catch(e){window.__WEBDRIVER__.resolve("id-1",
{error:"SecurityError",message:e.message,stacktrace:""})}};
img.onerror=function(){window.__WEBDRIVER__.resolve("id-1",
{error:"ScreenshotError",message:"SVG render failed",stacktrace:""})};
img.src='data:image/svg+xml;charset=utf-8,'+encodeURIComponent(svg)
}catch(e){window.__WEBDRIVER__.resolve("id-1",
{error:e.name,message:e.message,stacktrace:e.stack||""})}})()
"#
    );
    assert!(matches!(&e.how, ReplyWith::Member(k) if k == "data"));
}

#[test]
fn wrapped_at_the_top() {
    let job = Job::Wrapped("return 1".to_owned());
    assert_eq!(prepare_as(&ServerState::new(), &job, "i"), r#"(function(){try{var __r=(function(){return 1})();window.__WEBDRIVER__.resolve("i",__r)}catch(__e){window.__WEBDRIVER__.resolve("i",{error:__e.name,message:__e.message,stacktrace:__e.stack||""})}})()"#);
}

#[test]
fn wrapped_in_frames() {
    let mut state = ServerState::new();
    assert_eq!(build_frame_prefix(&state), "");
    assert!(!in_frame(&state));
    assert!(frame_switch(&mut state, &Json::Unsigned(1)).is_ok());
    let id = Json::Object(vec![("selector".to_owned(), Json::Str("#f".to_owned()))]);
    assert!(frame_switch(&mut state, &id).is_ok());
    assert!(in_frame(&state));
    let job = Job::Wrapped("return 1".to_owned());
    assert_eq!(
        prepare_as(&state, &job, "i"),
        r##"(function(){try{var __doc=document;var __f=__doc.querySelectorAll("iframe")[1];if(!__f)throw new Error('frame not found');__doc=__f.contentDocument;if(!__doc)throw new Error('cannot access frame document');var __f=__doc.querySelectorAll("#f")[0];if(!__f)throw new Error('frame not found');__doc=__f.contentDocument;if(!__doc)throw new Error('cannot access frame document');var __r=(function(document){return 1}).call(null,__doc);window.__WEBDRIVER__.resolve("i",__r)}catch(__e){window.__WEBDRIVER__.resolve("i",{error:__e.name,message:__e.message,stacktrace:__e.stack||""})}})()"##
    );
}

#[test]
fn actions_keys() {
    let body = Json::Object(vec![("actions".to_owned(), Json::Array(vec![Json::Object(vec![("type".to_owned(), Json::Str("key".to_owned())), ("actions".to_owned(), Json::Array(vec![Json::Object(vec![("type".to_owned(), Json::Str("keyDown".to_owned())), ("value".to_owned(), Json::Str("a".to_owned()))]), Json::Object(vec![("type".to_owned(), Json::Str("keyUp".to_owned())), ("value".to_owned(), Json::Str("a".to_owned()))])]))])]))]);
    assert_steps(
        actions_perform(&body),
        vec![
        Expected::Run(r#"(function(){var k="a";var code=k.length===1?'Key'+k.toUpperCase():k;var tgt=document.activeElement||document.body;tgt.dispatchEvent(new KeyboardEvent('keydown',{key:k,code:code,bubbles:true,cancelable:true}))})();return null"#),
        Expected::Run(r#"(function(){var k="a";var code=k.length===1?'Key'+k.toUpperCase():k;var tgt=document.activeElement||document.body;tgt.dispatchEvent(new KeyboardEvent('keyup',{key:k,code:code,bubbles:true,cancelable:true}))})();return null"#),
        ],
    );
}

#[test]
fn actions_move_viewport() {
    let body = Json::Object(vec![("actions".to_owned(), Json::Array(vec![Json::Object(vec![("type".to_owned(), Json::Str("pointer".to_owned())), ("actions".to_owned(), Json::Array(vec![Json::Object(vec![("type".to_owned(), Json::Str("pointerMove".to_owned())), ("x".to_owned(), Json::Unsigned(10)), ("y".to_owned(), Json::Negative(-20))])]))])]))]);
    assert_steps(
        actions_perform(&body),
        vec![
        Expected::Run(r#"window.__wdPointerX=10;window.__wdPointerY=-20;(function(){var __t=document.elementFromPoint(window.__wdPointerX||0,window.__wdPointerY||0)||document.body;if(!__t||typeof PointerEvent==='undefined')return;
            __t.dispatchEvent(new PointerEvent('pointermove',{
                clientX:window.__wdPointerX||0,
                clientY:window.__wdPointerY||0,
                button:0,
                buttons:0,
                bubbles:true,
                cancelable:true,
                composed:true,
                pointerId:1,
                pointerType:'mouse',
                isPrimary:true
            }));})();(function(){var __t=document.elementFromPoint(window.__wdPointerX||0,window.__wdPointerY||0)||document.body;if(!__t)return;
            __t.dispatchEvent(new MouseEvent('mousemove',{
                clientX:window.__wdPointerX||0,
                clientY:window.__wdPointerY||0,
                button:0,
                buttons:0,
                bubbles:true,
                cancelable:true,
                composed:true
            }));})();return null"#),
        ],
    );
}

#[test]
fn actions_move_pointer() {
    let body = Json::Object(vec![("actions".to_owned(), Json::Array(vec![Json::Object(vec![("type".to_owned(), Json::Str("pointer".to_owned())), ("actions".to_owned(), Json::Array(vec![Json::Object(vec![("type".to_owned(), Json::Str("pointerMove".to_owned())), ("x".to_owned(), Json::Float { json: "1.5".to_owned(), plain: "1.5".to_owned() }), ("y".to_owned(), Json::Unsigned(9007199254740993)), ("origin".to_owned(), Json::Str("pointer".to_owned()))])]))])]))]);
    assert_steps(
        actions_perform(&body),
        vec![
        Expected::Run(r#"window.__wdPointerX=(window.__wdPointerX||0)+1.5;window.__wdPointerY=(window.__wdPointerY||0)+9007199254740992;(function(){var __t=document.elementFromPoint(window.__wdPointerX||0,window.__wdPointerY||0)||document.body;if(!__t||typeof PointerEvent==='undefined')return;
            __t.dispatchEvent(new PointerEvent('pointermove',{
                clientX:window.__wdPointerX||0,
                clientY:window.__wdPointerY||0,
                button:0,
                buttons:0,
                bubbles:true,
                cancelable:true,
                composed:true,
                pointerId:1,
                pointerType:'mouse',
                isPrimary:true
            }));})();(function(){var __t=document.elementFromPoint(window.__wdPointerX||0,window.__wdPointerY||0)||document.body;if(!__t)return;
            __t.dispatchEvent(new MouseEvent('mousemove',{
                clientX:window.__wdPointerX||0,
                clientY:window.__wdPointerY||0,
                button:0,
                buttons:0,
                bubbles:true,
                cancelable:true,
                composed:true
            }));})();return null"#),
        ],
    );
}

#[test]
fn actions_move_largest_numbers() {
    let body = Json::Object(vec![("actions".to_owned(), Json::Array(vec![Json::Object(vec![("type".to_owned(), Json::Str("pointer".to_owned())), ("actions".to_owned(), Json::Array(vec![Json::Object(vec![("type".to_owned(), Json::Str("pointerMove".to_owned())), ("x".to_owned(), Json::Unsigned(18446744073709551615)), ("y".to_owned(), Json::Negative(-9223372036854775808)), ("origin".to_owned(), Json::Str("viewport".to_owned()))])]))])]))]);
    assert_steps(
        actions_perform(&body),
        vec![
        Expected::Run(r#"window.__wdPointerX=18446744073709552000;window.__wdPointerY=-9223372036854776000;(function(){var __t=document.elementFromPoint(window.__wdPointerX||0,window.__wdPointerY||0)||document.body;if(!__t||typeof PointerEvent==='undefined')return;
            __t.dispatchEvent(new PointerEvent('pointermove',{
                clientX:window.__wdPointerX||0,
                clientY:window.__wdPointerY||0,
                button:0,
                buttons:0,
                bubbles:true,
                cancelable:true,
                composed:true,
                pointerId:1,
                pointerType:'mouse',
                isPrimary:true
            }));})();(function(){var __t=document.elementFromPoint(window.__wdPointerX||0,window.__wdPointerY||0)||document.body;if(!__t)return;
            __t.dispatchEvent(new MouseEvent('mousemove',{
                clientX:window.__wdPointerX||0,
                clientY:window.__wdPointerY||0,
                button:0,
                buttons:0,
                bubbles:true,
                cancelable:true,
                composed:true
            }));})();return null"#),
        ],
    );
}

#[test]
fn actions_move_element() {
    let body = Json::Object(vec![("actions".to_owned(), Json::Array(vec![Json::Object(vec![("type".to_owned(), Json::Str("pointer".to_owned())), ("actions".to_owned(), Json::Array(vec![Json::Object(vec![("type".to_owned(), Json::Str("pointerMove".to_owned())), ("x".to_owned(), Json::Unsigned(0)), ("origin".to_owned(), Json::Object(vec![("element-6066-11e4-a52e-4f735466cecf".to_owned(), Json::Object(vec![("selector".to_owned(), Json::Str("#a\"b".to_owned())), ("index".to_owned(), Json::Unsigned(3)), ("using".to_owned(), Json::Str("css".to_owned()))]))]))])]))])]))]);
    assert_steps(
        actions_perform(&body),
        vec![
        Expected::Run(r##"(function(){var el=document.querySelectorAll("#a\"b")[3];if(el){var r=el.getBoundingClientRect();window.__wdPointerX=r.x+r.width/2+0;window.__wdPointerY=r.y+r.height/2+0;}})();(function(){var __t=document.elementFromPoint(window.__wdPointerX||0,window.__wdPointerY||0)||document.body;if(!__t||typeof PointerEvent==='undefined')return;
            __t.dispatchEvent(new PointerEvent('pointermove',{
                clientX:window.__wdPointerX||0,
                clientY:window.__wdPointerY||0,
                button:0,
                buttons:0,
                bubbles:true,
                cancelable:true,
                composed:true,
                pointerId:1,
                pointerType:'mouse',
                isPrimary:true
            }));})();(function(){var __t=document.elementFromPoint(window.__wdPointerX||0,window.__wdPointerY||0)||document.body;if(!__t)return;
            __t.dispatchEvent(new MouseEvent('mousemove',{
                clientX:window.__wdPointerX||0,
                clientY:window.__wdPointerY||0,
                button:0,
                buttons:0,
                bubbles:true,
                cancelable:true,
                composed:true
            }));})();return null"##),
        ],
    );
}

#[test]
fn actions_move_element_defaults() {
    let body = Json::Object(vec![("actions".to_owned(), Json::Array(vec![Json::Object(vec![("type".to_owned(), Json::Str("pointer".to_owned())), ("actions".to_owned(), Json::Array(vec![Json::Object(vec![("type".to_owned(), Json::Str("pointerMove".to_owned())), ("x".to_owned(), Json::Str("5".to_owned())), ("y".to_owned(), Json::Null), ("origin".to_owned(), Json::Object(vec![("e".to_owned(), Json::Object(vec![]))]))])]))])]))]);
    assert_steps(
        actions_perform(&body),
        vec![
        Expected::Run(r#"(function(){var el=document.querySelectorAll("")[0];if(el){var r=el.getBoundingClientRect();window.__wdPointerX=r.x+r.width/2+0;window.__wdPointerY=r.y+r.height/2+0;}})();(function(){var __t=document.elementFromPoint(window.__wdPointerX||0,window.__wdPointerY||0)||document.body;if(!__t||typeof PointerEvent==='undefined')return;
            __t.dispatchEvent(new PointerEvent('pointermove',{
                clientX:window.__wdPointerX||0,
                clientY:window.__wdPointerY||0,
                button:0,
                buttons:0,
                bubbles:true,
                cancelable:true,
                composed:true,
                pointerId:1,
                pointerType:'mouse',
                isPrimary:true
            }));})();(function(){var __t=document.elementFromPoint(window.__wdPointerX||0,window.__wdPointerY||0)||document.body;if(!__t)return;
            __t.dispatchEvent(new MouseEvent('mousemove',{
                clientX:window.__wdPointerX||0,
                clientY:window.__wdPointerY||0,
                button:0,
                buttons:0,
                bubbles:true,
                cancelable:true,
                composed:true
            }));})();return null"#),
        ],
    );
}

#[test]
fn actions_move_unknown_origin() {
    let body = Json::Object(vec![("actions".to_owned(), Json::Array(vec![Json::Object(vec![("type".to_owned(), Json::Str("pointer".to_owned())), ("actions".to_owned(), Json::Array(vec![Json::Object(vec![("type".to_owned(), Json::Str("pointerMove".to_owned())), ("origin".to_owned(), Json::Object(vec![("e".to_owned(), Json::Str("id".to_owned()))]))]), Json::Object(vec![("type".to_owned(), Json::Str("pointerMove".to_owned())), ("origin".to_owned(), Json::Object(vec![]))])]))])]))]);
    assert_steps(
        actions_perform(&body),
        vec![
        Expected::Run(r#"(function(){var __t=document.elementFromPoint(window.__wdPointerX||0,window.__wdPointerY||0)||document.body;if(!__t||typeof PointerEvent==='undefined')return;
            __t.dispatchEvent(new PointerEvent('pointermove',{
                clientX:window.__wdPointerX||0,
                clientY:window.__wdPointerY||0,
                button:0,
                buttons:0,
                bubbles:true,
                cancelable:true,
                composed:true,
                pointerId:1,
                pointerType:'mouse',
                isPrimary:true
            }));})();(function(){var __t=document.elementFromPoint(window.__wdPointerX||0,window.__wdPointerY||0)||document.body;if(!__t)return;
            __t.dispatchEvent(new MouseEvent('mousemove',{
                clientX:window.__wdPointerX||0,
                clientY:window.__wdPointerY||0,
                button:0,
                buttons:0,
                bubbles:true,
                cancelable:true,
                composed:true
            }));})();return null"#),
        Expected::Run(r#"(function(){var __t=document.elementFromPoint(window.__wdPointerX||0,window.__wdPointerY||0)||document.body;if(!__t||typeof PointerEvent==='undefined')return;
            __t.dispatchEvent(new PointerEvent('pointermove',{
                clientX:window.__wdPointerX||0,
                clientY:window.__wdPointerY||0,
                button:0,
                buttons:0,
                bubbles:true,
                cancelable:true,
                composed:true,
                pointerId:1,
                pointerType:'mouse',
                isPrimary:true
            }));})();(function(){var __t=document.elementFromPoint(window.__wdPointerX||0,window.__wdPointerY||0)||document.body;if(!__t)return;
            __t.dispatchEvent(new MouseEvent('mousemove',{
                clientX:window.__wdPointerX||0,
                clientY:window.__wdPointerY||0,
                button:0,
                buttons:0,
                bubbles:true,
                cancelable:true,
                composed:true
            }));})();return null"#),
        ],
    );
}

#[test]
fn actions_buttons() {
    let body = Json::Object(vec![("actions".to_owned(), Json::Array(vec![Json::Object(vec![("type".to_owned(), Json::Str("pointer".to_owned())), ("actions".to_owned(), Json::Array(vec![Json::Object(vec![("type".to_owned(), Json::Str("pointerDown".to_owned())), ("button".to_owned(), Json::Unsigned(2))]), Json::Object(vec![("type".to_owned(), Json::Str("pointerUp".to_owned())), ("button".to_owned(), Json::Unsigned(257))]), Json::Object(vec![("type".to_owned(), Json::Str("pointerUp".to_owned()))])]))])]))]);
    assert_steps(
        actions_perform(&body),
        vec![
        Expected::Run(r#"(function(){var __t=document.elementFromPoint(window.__wdPointerX||0,window.__wdPointerY||0)||document.body;if(!__t||typeof PointerEvent==='undefined')return;
            __t.dispatchEvent(new PointerEvent('pointerdown',{
                clientX:window.__wdPointerX||0,
                clientY:window.__wdPointerY||0,
                button:2,
                buttons:1,
                bubbles:true,
                cancelable:true,
                composed:true,
                pointerId:1,
                pointerType:'mouse',
                isPrimary:true
            }));})();(function(){var __t=document.elementFromPoint(window.__wdPointerX||0,window.__wdPointerY||0)||document.body;if(!__t)return;
            __t.dispatchEvent(new MouseEvent('mousedown',{
                clientX:window.__wdPointerX||0,
                clientY:window.__wdPointerY||0,
                button:2,
                buttons:1,
                bubbles:true,
                cancelable:true,
                composed:true
            }));})();return null"#),
        Expected::Run(r#"(function(){var __t=document.elementFromPoint(window.__wdPointerX||0,window.__wdPointerY||0)||document.body;if(!__t||typeof PointerEvent==='undefined')return;
            __t.dispatchEvent(new PointerEvent('pointerup',{
                clientX:window.__wdPointerX||0,
                clientY:window.__wdPointerY||0,
                button:1,
                buttons:0,
                bubbles:true,
                cancelable:true,
                composed:true,
                pointerId:1,
                pointerType:'mouse',
                isPrimary:true
            }));})();(function(){var __t=document.elementFromPoint(window.__wdPointerX||0,window.__wdPointerY||0)||document.body;if(!__t)return;
            __t.dispatchEvent(new MouseEvent('mouseup',{
                clientX:window.__wdPointerX||0,
                clientY:window.__wdPointerY||0,
                button:1,
                buttons:0,
                bubbles:true,
                cancelable:true,
                composed:true
            }));})();(function(){var __t=document.elementFromPoint(window.__wdPointerX||0,window.__wdPointerY||0)||document.body;if(!__t)return;
            __t.dispatchEvent(new MouseEvent('click',{
                clientX:window.__wdPointerX||0,
                clientY:window.__wdPointerY||0,
                button:1,
                buttons:0,
                bubbles:true,
                cancelable:true,
                composed:true
            }));})();return null"#),
        Expected::Run(r#"(function(){var __t=document.elementFromPoint(window.__wdPointerX||0,window.__wdPointerY||0)||document.body;if(!__t||typeof PointerEvent==='undefined')return;
            __t.dispatchEvent(new PointerEvent('pointerup',{
                clientX:window.__wdPointerX||0,
                clientY:window.__wdPointerY||0,
                button:0,
                buttons:0,
                bubbles:true,
                cancelable:true,
                composed:true,
                pointerId:1,
                pointerType:'mouse',
                isPrimary:true
            }));})();(function(){var __t=document.elementFromPoint(window.__wdPointerX||0,window.__wdPointerY||0)||document.body;if(!__t)return;
            __t.dispatchEvent(new MouseEvent('mouseup',{
                clientX:window.__wdPointerX||0,
                clientY:window.__wdPointerY||0,
                button:0,
                buttons:0,
                bubbles:true,
                cancelable:true,
                composed:true
            }));})();(function(){var __t=document.elementFromPoint(window.__wdPointerX||0,window.__wdPointerY||0)||document.body;if(!__t)return;
            __t.dispatchEvent(new MouseEvent('click',{
                clientX:window.__wdPointerX||0,
                clientY:window.__wdPointerY||0,
                button:0,
                buttons:0,
                bubbles:true,
                cancelable:true,
                composed:true
            }));})();return null"#),
        ],
    );
}

#[test]
fn actions_scroll() {
    let body = Json::Object(vec![("actions".to_owned(), Json::Array(vec![Json::Object(vec![("type".to_owned(), Json::Str("wheel".to_owned())), ("actions".to_owned(), Json::Array(vec![Json::Object(vec![("type".to_owned(), Json::Str("scroll".to_owned())), ("x".to_owned(), Json::Unsigned(1)), ("y".to_owned(), Json::Unsigned(2)), ("deltaX".to_owned(), Json::Unsigned(0)), ("deltaY".to_owned(), Json::Negative(-120))])]))])]))]);
    assert_steps(
        actions_perform(&body),
        vec![
        Expected::Run("(function(){var tgt=document.elementFromPoint(1,2)||document.body;tgt.dispatchEvent(new WheelEvent('wheel',{clientX:1,clientY:2,deltaX:0,deltaY:-120,bubbles:true,cancelable:true}))})();return null"),
        ],
    );
}

#[test]
fn actions_ticks_and_pauses() {
    let body = Json::Object(vec![("actions".to_owned(), Json::Array(vec![Json::Object(vec![("type".to_owned(), Json::Str("key".to_owned())), ("actions".to_owned(), Json::Array(vec![Json::Object(vec![("type".to_owned(), Json::Str("keyDown".to_owned())), ("value".to_owned(), Json::Str("a".to_owned()))]), Json::Object(vec![("type".to_owned(), Json::Str("pause".to_owned())), ("duration".to_owned(), Json::Unsigned(50))])]))]), Json::Object(vec![("type".to_owned(), Json::Str("none".to_owned())), ("actions".to_owned(), Json::Array(vec![Json::Object(vec![("type".to_owned(), Json::Str("pause".to_owned())), ("duration".to_owned(), Json::Unsigned(100))]), Json::Object(vec![("duration".to_owned(), Json::Unsigned(70))]), Json::Object(vec![("type".to_owned(), Json::Str("pause".to_owned())), ("duration".to_owned(), Json::Unsigned(0))])]))]), Json::Object(vec![("actions".to_owned(), Json::Array(vec![Json::Object(vec![("type".to_owned(), Json::Str("keyDown".to_owned())), ("value".to_owned(), Json::Str("z".to_owned()))])]))]), Json::Object(vec![("type".to_owned(), Json::Str("pointer".to_owned()))]), Json::Unsigned(5)]))]);
    assert_steps(
        actions_perform(&body),
        vec![
        Expected::Run(r#"(function(){var k="a";var code=k.length===1?'Key'+k.toUpperCase():k;var tgt=document.activeElement||document.body;tgt.dispatchEvent(new KeyboardEvent('keydown',{key:k,code:code,bubbles:true,cancelable:true}))})();return null"#),
        Expected::Wait(100),
        Expected::Wait(70),
        ],
    );
}

#[test]
fn actions_other_kinds_do_nothing() {
    let body = Json::Object(vec![("actions".to_owned(), Json::Array(vec![Json::Object(vec![("type".to_owned(), Json::Str("key".to_owned())), ("actions".to_owned(), Json::Array(vec![Json::Object(vec![("type".to_owned(), Json::Str("pointerDown".to_owned()))]), Json::Object(vec![("type".to_owned(), Json::Str("scroll".to_owned()))])]))]), Json::Object(vec![("type".to_owned(), Json::Str("pointer".to_owned())), ("actions".to_owned(), Json::Array(vec![Json::Object(vec![("type".to_owned(), Json::Str("keyDown".to_owned())), ("value".to_owned(), Json::Str("a".to_owned()))])]))])]))]);
    assert_steps(
        actions_perform(&body),
        vec![

        ],
    );
}

#[test]
fn actions_without_sources() {
    let body = Json::Object(vec![("actions".to_owned(), Json::Array(vec![]))]);
    assert_steps(
        actions_perform(&body),
        vec![

        ],
    );
}

#[test]
fn actions_need_an_array() {
    for body in vec![
        Json::Null,
        Json::Object(vec![]),
        Json::Object(vec![("actions".to_owned(), Json::Str("x".to_owned()))]),
    ] {
        match actions_perform(&body) {
            Err(ApiError::Internal(m)) => assert_eq!(m, "Missing 'actions' array"),
            _ => panic!("an error was due"),
        }
    }
    assert!(matches!(actions_release(), Json::Null));
}
