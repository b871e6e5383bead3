//! Scripts for the webview: how they are wrapped, and what their results mean.

use crate::json::object_1;
use crate::outside::{is_uuid, new_uuid};
use crate::plugin::error::{api_result, ApiError, ApiErrorView};
use crate::plugin::state::{build_frame_prefix, frame_prefix, in_frame, FrameView, ServerState};
use crate::text::{replace_all, replaced};
use crate::value::{object, Json, JsonView};
use vstd::prelude::*;

verus! {

/// The script that puts elements in the place of their markers in the arguments of a script.
pub const RESOLVE_ARGS_JS: &'static str =
    "function __wdResolve(v){if(Array.isArray(v)){for(var i=0;i<v.length;i++){v[i]=\
     __wdResolve(v[i])}return v}if(v&&typeof v==='object'&&v.__wd_resolve){var r=\
     v.__wd_resolve;if(r.using==='xpath'){var xr=document.evaluate(r.selector,document,\
     null,XPathResult.ORDERED_NODE_SNAPSHOT_TYPE,null);return xr.snapshotItem(r.index)}\
     return document.querySelectorAll(r.selector)[r.index]}if(v&&typeof v===\
     'object'&&!Array.isArray(v)){for(var k in v){if(v.hasOwnProperty(k)){v[k]=\
     __wdResolve(v[k])}}}return v}";

pub const FRAMED_OPEN: &'static str = "(function(){try{";

pub const FRAMED_SECOND: &'static str = "var __r=(function(document){";

pub const FRAMED_THIRD: &'static str = "}).call(null,__doc);window.__WEBDRIVER__.resolve(\"";

pub const FRAMED_FOURTH: &'static str = "\",__r)}catch(__e){window.__WEBDRIVER__.resolve(\"";

pub const FRAMED_CLOSE: &'static str =
    "\",{error:__e.name,message:__e.message,stacktrace:__e.stack||\"\"})}})()";

pub const TOP_OPEN: &'static str = "(function(){try{var __r=(function(){";

pub const TOP_SECOND: &'static str = "})();window.__WEBDRIVER__.resolve(\"";

pub const TOP_THIRD: &'static str = "\",__r)}catch(__e){window.__WEBDRIVER__.resolve(\"";

pub const TOP_CLOSE: &'static str =
    "\",{error:__e.name,message:__e.message,stacktrace:__e.stack||\"\"})}})()";

pub const ASYNC_OPEN: &'static str = "var __args=__wdResolve(";

pub const ASYNC_SECOND: &'static str = ");var __done=function(r){window.__WEBDRIVER__.resolve(\"";

pub const ASYNC_THIRD: &'static str = "\",r)};__args.push(__done);try{(function(){";

pub const ASYNC_FOURTH: &'static str =
    "}).apply(null,__args)}catch(__e){window.__WEBDRIVER__.resolve(\"";

pub const ASYNC_CLOSE: &'static str =
    "\",{error:__e.name,message:__e.message,stacktrace:__e.stack||\"\"})}})();";

/// What stands for the id of a script that reports its result itself.
pub const CALLBACK_ID: &'static str = "__CALLBACK_ID__";

/// How long a script may take to report its result, in milliseconds.
pub const SCRIPT_TIMEOUT_MS: u64 = 30000;

/// A script to run: one whose result is the value that it returns, in the current frame; one
/// that reports its result itself; or one that is given a function to report its result with.
pub enum Job {
    Wrapped(String),
    Callback(String),
    Async { args: String, script: String },
}

/// The mathematical value of a [`Job`].
pub enum JobView {
    Wrapped(Seq<char>),
    Callback(Seq<char>),
    Async { args: Seq<char>, script: Seq<char> },
}

impl View for Job {
    type V = JobView;

    open spec fn view(&self) -> JobView {
        match self {
            Job::Wrapped(s) => JobView::Wrapped(s@),
            Job::Callback(s) => JobView::Callback(s@),
            Job::Async { args, script } => JobView::Async { args: args@, script: script@ },
        }
    }
}

/// The script that the webview runs for a job, with the id under which the result is reported.
pub open spec fn final_script(frames: Seq<FrameView>, job: JobView, id: Seq<char>) -> Seq<char> {
    match job {
        JobView::Wrapped(script) => if frames.len() > 0 {
            FRAMED_OPEN@ + frame_prefix(frames) + FRAMED_SECOND@ + script + FRAMED_THIRD@ + id
                + FRAMED_FOURTH@ + id + FRAMED_CLOSE@
        } else {
            TOP_OPEN@ + script + TOP_SECOND@ + id + TOP_THIRD@ + id + TOP_CLOSE@
        },
        JobView::Callback(script) => replaced(script, CALLBACK_ID@, id),
        JobView::Async { args, script } => {
            "(function(){"@ + RESOLVE_ARGS_JS@ + ASYNC_OPEN@ + args + ASYNC_SECOND@ + id
                + ASYNC_THIRD@ + script + ASYNC_FOURTH@ + id + ASYNC_CLOSE@
        },
    }
}

/// Writes the script that the webview runs for a job, under a given id.
pub fn prepare_as(state: &ServerState, job: &Job, id: &str) -> (r: String)
    ensures
        r@ == final_script(state@.frames, job@, id@),
{
    match job {
        Job::Wrapped(script) => {
            if in_frame(state) {
                let mut js = FRAMED_OPEN.to_owned();
                js.append(build_frame_prefix(state).as_str());
                js.append(FRAMED_SECOND);
                js.append(script.as_str());
                js.append(FRAMED_THIRD);
                js.append(id);
                js.append(FRAMED_FOURTH);
                js.append(id);
                js.append(FRAMED_CLOSE);
                js
            } else {
                let mut js = TOP_OPEN.to_owned();
                js.append(script.as_str());
                js.append(TOP_SECOND);
                js.append(id);
                js.append(TOP_THIRD);
                js.append(id);
                js.append(TOP_CLOSE);
                js
            }
        },
        Job::Callback(script) => {
            proof {
                reveal_strlit("__CALLBACK_ID__");
            }
            replace_all(script.as_str(), CALLBACK_ID, id)
        },
        Job::Async { args, script } => {
            let mut js = "(function(){".to_owned();
            js.append(RESOLVE_ARGS_JS);
            js.append(ASYNC_OPEN);
            js.append(args.as_str());
            js.append(ASYNC_SECOND);
            js.append(id);
            js.append(ASYNC_THIRD);
            js.append(script.as_str());
            js.append(ASYNC_FOURTH);
            js.append(id);
            js.append(ASYNC_CLOSE);
            js
        },
    }
}

/// Writes the script that the webview runs for a job, under a random id, and answers both.
pub fn prepare(state: &ServerState, job: &Job) -> (r: (String, String))
    ensures
        is_uuid(r.0@),
        r.1@ == final_script(state@.frames, job@, r.0@),
{
    let id = new_uuid();
    let script = prepare_as(state, job, id.as_str());
    (id, script)
}

/// The error for a job without a window to run in.
pub open spec fn no_window_for(job: JobView) -> ApiErrorView {
    match job {
        JobView::Async { .. } => ApiErrorView::NotFound("no window"@),
        _ => ApiErrorView::NotFound("no such window"@),
    }
}

/// What comes of a script: there is no window to run it in, it could not be run, or the wait for
/// its result ended with a value, without one, or too late.
pub enum ScriptOutcome {
    NoWindow,
    NotRun(String),
    Value(Json),
    Closed,
    TimedOut,
}

/// The mathematical value of a [`ScriptOutcome`].
pub enum ScriptOutcomeView {
    NoWindow,
    NotRun(Seq<char>),
    Value(JsonView),
    Closed,
    TimedOut,
}

impl View for ScriptOutcome {
    type V = ScriptOutcomeView;

    open spec fn view(&self) -> ScriptOutcomeView {
        match self {
            ScriptOutcome::NoWindow => ScriptOutcomeView::NoWindow,
            ScriptOutcome::NotRun(e) => ScriptOutcomeView::NotRun(e@),
            ScriptOutcome::Value(v) => ScriptOutcomeView::Value(v@),
            ScriptOutcome::Closed => ScriptOutcomeView::Closed,
            ScriptOutcome::TimedOut => ScriptOutcomeView::TimedOut,
        }
    }
}

/// Whether a value reports that the script threw.
pub open spec fn is_thrown(v: JsonView) -> bool {
    v.get("error"@) is Some && v.get("message"@) is Some
}

/// The message for a job whose result did not come in time.
pub open spec fn timeout_message(job: JobView) -> Seq<char> {
    match job {
        JobView::Wrapped(_) => "script timed out"@,
        JobView::Callback(_) => "screenshot timed out"@,
        JobView::Async { .. } => "async script timed out"@,
    }
}

/// The value of a job, or the error that it ended with.
pub open spec fn job_result(job: JobView, o: ScriptOutcomeView) -> Result<JsonView, ApiErrorView> {
    match o {
        ScriptOutcomeView::NoWindow => Err(no_window_for(job)),
        ScriptOutcomeView::NotRun(e) => Err(ApiErrorView::Internal(e)),
        ScriptOutcomeView::Value(v) => if is_thrown(v) {
            Err(ApiErrorView::Internal(v.get_str_or("message"@, "script error"@)))
        } else {
            Ok(v)
        },
        ScriptOutcomeView::Closed => Err(ApiErrorView::Internal("result channel closed"@)),
        ScriptOutcomeView::TimedOut => Err(ApiErrorView::Internal(timeout_message(job))),
    }
}

/// Reads what came of a job.
pub fn conclude(job: &Job, outcome: ScriptOutcome) -> (r: Result<Json, ApiError>)
    ensures
        api_result(r) == job_result(job@, outcome@),
{
    match outcome {
        ScriptOutcome::NoWindow => match job {
            Job::Async { .. } => Err(ApiError::NotFound("no window".to_owned())),
            _ => Err(ApiError::NotFound("no such window".to_owned())),
        },
        ScriptOutcome::NotRun(e) => Err(ApiError::Internal(e)),
        ScriptOutcome::Value(v) => if v.get("error").is_some() && v.get("message").is_some() {
            Err(ApiError::Internal(v.get_str_or("message", "script error")))
        } else {
            Ok(v)
        },
        ScriptOutcome::Closed => Err(ApiError::Internal("result channel closed".to_owned())),
        ScriptOutcome::TimedOut => match job {
            Job::Wrapped(_) => Err(ApiError::Internal("script timed out".to_owned())),
            Job::Callback(_) => Err(ApiError::Internal("screenshot timed out".to_owned())),
            Job::Async { .. } => Err(ApiError::Internal("async script timed out".to_owned())),
        },
    }
}

/// How the value of a script is replied: not at all, as it is, or as a member of an object.
pub enum ReplyWith {
    Null,
    Whole,
    Member(String),
}

/// The mathematical value of a [`ReplyWith`].
pub enum ReplyWithView {
    Null,
    Whole,
    Member(Seq<char>),
}

impl View for ReplyWith {
    type V = ReplyWithView;

    open spec fn view(&self) -> ReplyWithView {
        match self {
            ReplyWith::Null => ReplyWithView::Null,
            ReplyWith::Whole => ReplyWithView::Whole,
            ReplyWith::Member(k) => ReplyWithView::Member(k@),
        }
    }
}

/// The body of the reply with the value of a script.
pub open spec fn reply_body(how: ReplyWithView, v: JsonView) -> JsonView {
    match how {
        ReplyWithView::Null => JsonView::Null,
        ReplyWithView::Whole => v,
        ReplyWithView::Member(k) => object(k, v),
    }
}

/// What the plugin does for a request: run a script and reply with its value.
pub struct Evaluation {
    pub job: Job,
    pub how: ReplyWith,
}

/// The mathematical value of an [`Evaluation`].
pub struct EvaluationView {
    pub job: JobView,
    pub how: ReplyWithView,
}

impl View for Evaluation {
    type V = EvaluationView;

    open spec fn view(&self) -> EvaluationView {
        EvaluationView { job: self.job@, how: self.how@ }
    }
}

/// Runs a script in the current frame and replies with null.
pub open spec fn quietly(script: Seq<char>) -> EvaluationView {
    EvaluationView { job: JobView::Wrapped(script), how: ReplyWithView::Null }
}

/// Runs a script in the current frame and replies with its value as a member.
pub open spec fn reporting(script: Seq<char>, key: Seq<char>) -> EvaluationView {
    EvaluationView { job: JobView::Wrapped(script), how: ReplyWithView::Member(key) }
}

/// Runs a script in the current frame and replies with null.
pub fn run_quietly(script: String) -> (r: Evaluation)
    ensures
        r@ == quietly(script@),
{
    Evaluation { job: Job::Wrapped(script), how: ReplyWith::Null }
}

/// Runs a script in the current frame and replies with its value as a member.
pub fn run_reporting(script: String, key: &str) -> (r: Evaluation)
    ensures
        r@ == reporting(script@, key@),
{
    Evaluation { job: Job::Wrapped(script), how: ReplyWith::Member(key.to_owned()) }
}

/// The reply to a request once its script has come to an end.
pub open spec fn evaluated(e: EvaluationView, o: ScriptOutcomeView) -> Result<
    JsonView,
    ApiErrorView,
> {
    match job_result(e.job, o) {
        Ok(v) => Ok(reply_body(e.how, v)),
        Err(x) => Err(x),
    }
}

/// Replies to a request once its script has come to an end.
pub fn finish(evaluation: &Evaluation, outcome: ScriptOutcome) -> (r: Result<Json, ApiError>)
    ensures
        api_result(r) == evaluated(evaluation@, outcome@),
{
    match conclude(&evaluation.job, outcome) {
        Ok(v) => match &evaluation.how {
            ReplyWith::Null => Ok(Json::Null),
            ReplyWith::Whole => Ok(v),
            ReplyWith::Member(k) => Ok(object_1(k.as_str(), v)),
        },
        Err(e) => Err(e),
    }
}

} // verus!
