//! Scripts that draw the page.

use crate::outside::{json_quoted, quote_json};
use crate::plugin::eval::{Evaluation, EvaluationView, Job, JobView, ReplyWith, ReplyWithView};
use crate::plugin::find::{find_fn, name_find_fn};
use crate::plugin::requests::{optional, ElemReq};
use crate::text::{decimal, decimal_text};
use vstd::prelude::*;

verus! {

/// The script that draws the page and reports the picture.
pub const SCREENSHOT_JS: &'static str = r#"(function(){try{
var el=document.documentElement;
var w=Math.max(el.scrollWidth,el.clientWidth);
var h=Math.max(el.scrollHeight,el.clientHeight);
var xml=new XMLSerializer().serializeToString(el);
var svg='<svg xmlns="http://www.w3.org/2000/svg" width="'+w+'" height="'+h+'">'
+'<foreignObject width="100%" height="100%">'+xml+'</foreignObject></svg>';
var c=document.createElement('canvas');c.width=w;c.height=h;
var ctx=c.getContext('2d');var img=new Image();
img.onload=function(){try{ctx.drawImage(img,0,0);
var d=c.toDataURL('image/png').split(',')[1];
window.__WEBDRIVER__.resolve("__CALLBACK_ID__",d)}
catch(e){window.__WEBDRIVER__.resolve("__CALLBACK_ID__",
{error:"SecurityError",message:e.message,stacktrace:""})}};
img.onerror=function(){window.__WEBDRIVER__.resolve("__CALLBACK_ID__",
{error:"ScreenshotError",message:"SVG render failed",stacktrace:""})};
img.src='data:image/svg+xml;charset=utf-8,'+encodeURIComponent(svg)
}catch(e){window.__WEBDRIVER__.resolve("__CALLBACK_ID__",
{error:e.name,message:e.message,stacktrace:e.stack||""})}})()"#;

/// The script that draws the page and reports a document with the picture.
pub const PRINT_JS: &'static str = r#"(function(){try{
var el=document.documentElement;
var w=Math.max(el.scrollWidth,el.clientWidth);
var h=Math.max(el.scrollHeight,el.clientHeight);
var xml=new XMLSerializer().serializeToString(el);
var svg='<svg xmlns="http://www.w3.org/2000/svg" width="'+w+'" height="'+h+'">'
+'<foreignObject width="100%" height="100%">'+xml+'</foreignObject></svg>';
var c=document.createElement('canvas');c.width=w;c.height=h;
var ctx=c.getContext('2d');var img=new Image();
img.onload=function(){try{ctx.drawImage(img,0,0);
var pngDataUrl=c.toDataURL('image/png');
var pngB64=pngDataUrl.split(',')[1];
var bin=atob(pngB64);var len=bin.length;
var imgW=w;var imgH=h;
var pageW=612;var pageH=792;
var scaleX=pageW/imgW;var scaleY=pageH/imgH;
var sc=Math.min(scaleX,scaleY);
var dw=Math.round(imgW*sc);var dh=Math.round(imgH*sc);
var objs=[];var offsets=[];
function addObj(s){offsets.push(objs.join('').length);objs.push(s)}
addObj('%PDF-1.4\n');
addObj('1 0 obj\n<< /Type /Catalog /Pages 2 0 R >>\nendobj\n');
addObj('2 0 obj\n<< /Type /Pages /Kids [3 0 R] /Count 1 >>\nendobj\n');
addObj('3 0 obj\n<< /Type /Page /Parent 2 0 R /MediaBox [0 0 '+pageW+' '+pageH+'] /Contents 5 0 R /Resources << /XObject << /Img 4 0 R >> >> >>\nendobj\n');
var imgStream='4 0 obj\n<< /Type /XObject /Subtype /Image /Width '+imgW+' /Height '+imgH+' /ColorSpace /DeviceRGB /BitsPerComponent 8 /Filter /ASCIIHexDecode /Length '+(len*6+1)+' >>\nstream\n';
var hexParts=[];for(var i=0;i<len;i++){
var byte=bin.charCodeAt(i);
hexParts.push(('0'+byte.toString(16)).slice(-2))}
imgStream+=hexParts.join('')+'>\nendstream\nendobj\n';
addObj(imgStream);
var contentStr='q '+dw+' 0 0 '+dh+' 0 '+(pageH-dh)+' cm /Img Do Q';
addObj('5 0 obj\n<< /Length '+contentStr.length+' >>\nstream\n'+contentStr+'\nendstream\nendobj\n');
var body=objs.join('');
var xrefOff=body.length;
var xref='xref\n0 6\n0000000000 65535 f \n';
for(var j=1;j<offsets.length;j++){
xref+=('0000000000'+offsets[j]).slice(-10)+' 00000 n \n'}
xref+='trailer\n<< /Size 6 /Root 1 0 R >>\nstartxref\n'+xrefOff+'\n%%EOF';
var pdf=body+xref;
var pdfB64=btoa(pdf);
window.__WEBDRIVER__.resolve("__CALLBACK_ID__",pdfB64)}
catch(e){window.__WEBDRIVER__.resolve("__CALLBACK_ID__",
{error:e.name,message:e.message,stacktrace:e.stack||""})}};
img.onerror=function(){window.__WEBDRIVER__.resolve("__CALLBACK_ID__",
{error:"PrintError",message:"SVG render failed",stacktrace:""})};
img.src='data:image/svg+xml;charset=utf-8,'+encodeURIComponent(svg)
}catch(e){window.__WEBDRIVER__.resolve("__CALLBACK_ID__",
{error:e.name,message:e.message,stacktrace:e.stack||""})}})()"#;

pub const ELEMENT_PICTURE_OPEN: &'static str = r#"(function(){try{
var tgt=window.__WEBDRIVER__."#;

pub const ELEMENT_PICTURE_CLOSE: &'static str = r#");
if(!tgt){window.__WEBDRIVER__.resolve("__CALLBACK_ID__",
{error:"NoSuchElement",message:"element not found",stacktrace:""});return}
var rect=tgt.getBoundingClientRect();
var el=document.documentElement;
var w=Math.max(el.scrollWidth,el.clientWidth);
var h=Math.max(el.scrollHeight,el.clientHeight);
var xml=new XMLSerializer().serializeToString(el);
var svg='<svg xmlns="http://www.w3.org/2000/svg" width="'+w+'" height="'+h+'">'
+'<foreignObject width="100%" height="100%">'+xml+'</foreignObject></svg>';
var fc=document.createElement('canvas');fc.width=w;fc.height=h;
var fctx=fc.getContext('2d');var img=new Image();
img.onload=function(){try{fctx.drawImage(img,0,0);
var c=document.createElement('canvas');
c.width=Math.ceil(rect.width);c.height=Math.ceil(rect.height);
var ctx=c.getContext('2d');
ctx.drawImage(fc,rect.x,rect.y,rect.width,rect.height,0,0,rect.width,rect.height);
var d=c.toDataURL('image/png').split(',')[1];
window.__WEBDRIVER__.resolve("__CALLBACK_ID__",d)}
catch(e){window.__WEBDRIVER__.resolve("__CALLBACK_ID__",
{error:"SecurityError",message:e.message,stacktrace:""})}};
img.onerror=function(){window.__WEBDRIVER__.resolve("__CALLBACK_ID__",
{error:"ScreenshotError",message:"SVG render failed",stacktrace:""})};
img.src='data:image/svg+xml;charset=utf-8,'+encodeURIComponent(svg)
}catch(e){window.__WEBDRIVER__.resolve("__CALLBACK_ID__",
{error:e.name,message:e.message,stacktrace:e.stack||""})}})()
"#;

/// Runs a script that reports its result itself, and replies with the result as data.
pub open spec fn drawing(script: Seq<char>) -> EvaluationView {
    EvaluationView { job: JobView::Callback(script), how: ReplyWithView::Member("data"@) }
}

fn draw(script: String) -> (r: Evaluation)
    ensures
        r@ == drawing(script@),
{
    Evaluation { job: Job::Callback(script), how: ReplyWith::Member("data".to_owned()) }
}

/// Takes a picture of the page.
pub fn screenshot() -> (r: Evaluation)
    ensures
        r@ == drawing(SCREENSHOT_JS@),
{
    draw(SCREENSHOT_JS.to_owned())
}

/// The script that draws an element and reports the picture.
pub open spec fn element_picture_script(body: ElemReq) -> Seq<char> {
    ELEMENT_PICTURE_OPEN@ + find_fn(optional(body.using)) + "("@ + json_quoted(body.selector@)
        + ","@ + decimal_text(body.index as nat) + ELEMENT_PICTURE_CLOSE@
}

/// Takes a picture of an element.
pub fn screenshot_element(body: &ElemReq) -> (r: Evaluation)
    ensures
        r@ == drawing(element_picture_script(*body)),
{
    let mut js = ELEMENT_PICTURE_OPEN.to_owned();
    js.append(name_find_fn(&body.using));
    js.append("(");
    js.append(quote_json(body.selector.as_str()).as_str());
    js.append(",");
    js.append(decimal(body.index as u64).as_str());
    js.append(ELEMENT_PICTURE_CLOSE);
    draw(js)
}

/// Prints the page.
pub fn print_page() -> (r: Evaluation)
    ensures
        r@ == drawing(PRINT_JS@),
{
    draw(PRINT_JS.to_owned())
}

} // verus!
