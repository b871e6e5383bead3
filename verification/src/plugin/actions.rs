//! Input actions: what is run for each tick.

use crate::outside::{display_float, float_text, json_quoted, quote_json};
use crate::plugin::error::{api_result, ApiError, ApiErrorView};
use crate::plugin::eval::{quietly, run_quietly, Evaluation, EvaluationView};
use crate::plugin::events::{
    dispatch_mouse_event_js, dispatch_pointer_event_js, mouse_event, pointer_event,
};
use crate::text::{decimal, decimal_text, integer_text, text_eq};
use crate::value::{array_value, members, object_value, values, Json, JsonView};
use vstd::prelude::*;

verus! {

broadcast use {array_value, object_value};

pub const KEY_DOWN_OPEN: &'static str = "(function(){var k=";

pub const KEY_DOWN_CLOSE: &'static str =
    ";var code=k.length===1?'Key'+k.toUpperCase():k;var tgt=\
     document.activeElement||document.body;tgt.dispatchEvent(new KeyboardEvent('keydown',\
     {key:k,code:code,bubbles:true,cancelable:true}))})();";

pub const KEY_UP_OPEN: &'static str = "(function(){var k=";

pub const KEY_UP_CLOSE: &'static str =
    ";var code=k.length===1?'Key'+k.toUpperCase():k;var tgt=\
     document.activeElement||document.body;tgt.dispatchEvent(new KeyboardEvent('keyup',{\
     key:k,code:code,bubbles:true,cancelable:true}))})();";

pub const MOVE_ELEMENT_OPEN: &'static str = "(function(){var el=document.querySelectorAll(";

pub const MOVE_ELEMENT_MIDDLE: &'static str =
    "];if(el){var r=el.getBoundingClientRect();window.__wdPointerX=r.x+r.width/2+";

pub const MOVE_ELEMENT_CLOSE: &'static str = ";window.__wdPointerY=r.y+r.height/2+";

pub const MOVE_POINTER_OPEN: &'static str = "window.__wdPointerX=(window.__wdPointerX||0)+";

pub const MOVE_POINTER_CLOSE: &'static str = ";window.__wdPointerY=(window.__wdPointerY||0)+";

pub const MOVE_VIEWPORT_OPEN: &'static str = "window.__wdPointerX=";

pub const MOVE_VIEWPORT_CLOSE: &'static str = ";window.__wdPointerY=";

pub const SCROLL_OPEN: &'static str = "(function(){var tgt=document.elementFromPoint(";

pub const SCROLL_MIDDLE: &'static str =
    ")||document.body;tgt.dispatchEvent(new WheelEvent('wheel',{clientX:";

pub const SCROLL_CLOSE: &'static str = ",bubbles:true,cancelable:true}))})();";

/// The expression for the element under the pointer.
pub const POINTER_TARGET: &'static str =
    "document.elementFromPoint(window.__wdPointerX||0,window.__wdPointerY||0)\
     ||document.body";

/// The expression for the pointer's place from the left.
pub const POINTER_X: &'static str = "window.__wdPointerX||0";

/// The expression for the pointer's place from the top.
pub const POINTER_Y: &'static str = "window.__wdPointerY||0";

/// The script that presses a key.
pub open spec fn key_down_script(key: Seq<char>) -> Seq<char> {
    KEY_DOWN_OPEN@ + json_quoted(key) + KEY_DOWN_CLOSE@
}

/// Writes the script that presses a key.
pub fn write_key_down(key: &str) -> (r: String)
    ensures
        r@ == key_down_script(key@),
{
    let mut js = KEY_DOWN_OPEN.to_owned();
    js.append(quote_json(key).as_str());
    js.append(KEY_DOWN_CLOSE);
    js
}

/// The script that lets go of a key.
pub open spec fn key_up_script(key: Seq<char>) -> Seq<char> {
    KEY_UP_OPEN@ + json_quoted(key) + KEY_UP_CLOSE@
}

/// Writes the script that lets go of a key.
pub fn write_key_up(key: &str) -> (r: String)
    ensures
        r@ == key_up_script(key@),
{
    let mut js = KEY_UP_OPEN.to_owned();
    js.append(quote_json(key).as_str());
    js.append(KEY_UP_CLOSE);
    js
}

/// From where a move of the pointer is measured: from the centre of an element, from nowhere as
/// what should name an element does not, from where the pointer is, or from the corner of the
/// viewport.
pub enum Origin {
    Element { selector: String, index: u64 },
    Unknown,
    Pointer,
    Viewport,
}

/// The mathematical value of an [`Origin`].
pub enum OriginView {
    Element { selector: Seq<char>, index: u64 },
    Unknown,
    Pointer,
    Viewport,
}

impl View for Origin {
    type V = OriginView;

    open spec fn view(&self) -> OriginView {
        match self {
            Origin::Element { selector, index } => OriginView::Element {
                selector: selector@,
                index: *index,
            },
            Origin::Unknown => OriginView::Unknown,
            Origin::Pointer => OriginView::Pointer,
            Origin::Viewport => OriginView::Viewport,
        }
    }
}

/// The origin of a move. An object names an element by its first member.
pub open spec fn move_origin(action: JsonView) -> OriginView {
    match action.get("origin"@) {
        Some(JsonView::Object(m)) => if m.len() > 0 && m[0].1 is Object {
            OriginView::Element {
                selector: m[0].1.get_str_or("selector"@, ""@),
                index: m[0].1.get_u64_or("index"@, 0),
            }
        } else {
            OriginView::Unknown
        },
        Some(JsonView::Str(s)) => if s == "pointer"@ {
            OriginView::Pointer
        } else {
            OriginView::Viewport
        },
        _ => OriginView::Viewport,
    }
}

/// Reads the origin of a move.
pub fn read_origin(action: &Json) -> (r: Origin)
    ensures
        r@ == move_origin(action@),
{
    match action.get("origin") {
        Some(Json::Object(m)) => {
            let ghost all = members(m@);
            if m.len() > 0 && m[0].1.is_object() {
                assert(all[0].1 == m@[0].1@);
                Origin::Element {
                    selector: m[0].1.get_str_or("selector", ""),
                    index: m[0].1.get_u64_or("index", 0),
                }
            } else {
                assert(m@.len() > 0 ==> all[0].1 == m@[0].1@);
                Origin::Unknown
            }
        },
        Some(Json::Str(s)) => if text_eq(s.as_str(), "pointer") {
            Origin::Pointer
        } else {
            Origin::Viewport
        },
        _ => Origin::Viewport,
    }
}

/// The script that takes the pointer to its new place.
pub open spec fn place_script(origin: OriginView, x: Seq<char>, y: Seq<char>) -> Seq<char> {
    match origin {
        OriginView::Element { selector, index } => {
            MOVE_ELEMENT_OPEN@ + json_quoted(selector) + ")["@ + decimal_text(index as nat)
                + MOVE_ELEMENT_MIDDLE@ + x + MOVE_ELEMENT_CLOSE@ + y + ";}})();"@
        },
        OriginView::Unknown => seq![],
        OriginView::Pointer => {
            MOVE_POINTER_OPEN@ + x + MOVE_POINTER_CLOSE@ + y + ";"@
        },
        OriginView::Viewport => {
            MOVE_VIEWPORT_OPEN@ + x + MOVE_VIEWPORT_CLOSE@ + y + ";"@
        },
    }
}

fn write_place(origin: &Origin, x: &str, y: &str) -> (r: String)
    ensures
        r@ == place_script(origin@, x@, y@),
{
    match origin {
        Origin::Element { selector, index } => {
            let index: u64 = *index;
            let selector = selector.as_str();
            let mut js = MOVE_ELEMENT_OPEN.to_owned();
            js.append(quote_json(selector).as_str());
            js.append(")[");
            js.append(decimal(index).as_str());
            js.append(MOVE_ELEMENT_MIDDLE);
            js.append(x);
            js.append(MOVE_ELEMENT_CLOSE);
            js.append(y);
            js.append(";}})();");
            js
        },
        Origin::Unknown => String::new(),
        Origin::Pointer => {
            let mut js = MOVE_POINTER_OPEN.to_owned();
            js.append(x);
            js.append(MOVE_POINTER_CLOSE);
            js.append(y);
            js.append(";");
            js
        },
        Origin::Viewport => {
            let mut js = MOVE_VIEWPORT_OPEN.to_owned();
            js.append(x);
            js.append(MOVE_VIEWPORT_CLOSE);
            js.append(y);
            js.append(";");
            js
        },
    }
}

/// The script that dispatches a pointer event where the pointer is.
pub open spec fn pointer_here(event_name: Seq<char>, button: u8, buttons: u8) -> Seq<char> {
    pointer_event(event_name, POINTER_TARGET@, POINTER_X@, POINTER_Y@, button, buttons)
}

/// The script that dispatches a mouse event where the pointer is.
pub open spec fn mouse_here(event_name: Seq<char>, button: u8, buttons: u8) -> Seq<char> {
    mouse_event(event_name, POINTER_TARGET@, POINTER_X@, POINTER_Y@, button, buttons)
}

fn write_pointer_here(event_name: &str, button: u8, buttons: u8) -> (r: String)
    ensures
        r@ == pointer_here(event_name@, button, buttons),
{
    dispatch_pointer_event_js(
        event_name,
        POINTER_TARGET,
        POINTER_X,
        POINTER_Y,
        button,
        buttons,
    )
}

fn write_mouse_here(event_name: &str, button: u8, buttons: u8) -> (r: String)
    ensures
        r@ == mouse_here(event_name@, button, buttons),
{
    dispatch_mouse_event_js(event_name, POINTER_TARGET, POINTER_X, POINTER_Y, button, buttons)
}

/// The script that moves the pointer.
pub open spec fn move_script(origin: OriginView, x: Seq<char>, y: Seq<char>) -> Seq<char> {
    place_script(origin, x, y) + pointer_here("pointermove"@, 0, 0) + mouse_here(
        "mousemove"@,
        0,
        0,
    )
}

/// Writes the script that moves the pointer by distances that are given in decimal.
pub fn write_move(origin: &Origin, x: &str, y: &str) -> (r: String)
    ensures
        r@ == move_script(origin@, x@, y@),
{
    let mut js = write_place(origin, x, y);
    js.append(write_pointer_here("pointermove", 0, 0).as_str());
    js.append(write_mouse_here("mousemove", 0, 0).as_str());
    js
}

/// The script that presses a button of the pointer.
pub open spec fn button_down_script(button: u8) -> Seq<char> {
    pointer_here("pointerdown"@, button, 1) + mouse_here("mousedown"@, button, 1)
}

/// Writes the script that presses a button of the pointer.
pub fn write_button_down(button: u8) -> (r: String)
    ensures
        r@ == button_down_script(button),
{
    let mut js = write_pointer_here("pointerdown", button, 1);
    js.append(write_mouse_here("mousedown", button, 1).as_str());
    js
}

/// The script that lets go of a button of the pointer, which makes a click.
pub open spec fn button_up_script(button: u8) -> Seq<char> {
    pointer_here("pointerup"@, button, 0) + mouse_here("mouseup"@, button, 0) + mouse_here(
        "click"@,
        button,
        0,
    )
}

/// Writes the script that lets go of a button of the pointer.
pub fn write_button_up(button: u8) -> (r: String)
    ensures
        r@ == button_up_script(button),
{
    let mut js = write_pointer_here("pointerup", button, 0);
    js.append(write_mouse_here("mouseup", button, 0).as_str());
    js.append(write_mouse_here("click", button, 0).as_str());
    js
}

/// The script that turns the wheel at a place.
pub open spec fn scroll_script(
    x: Seq<char>,
    y: Seq<char>,
    delta_x: Seq<char>,
    delta_y: Seq<char>,
) -> Seq<char> {
    SCROLL_OPEN@ + x + ","@ + y + SCROLL_MIDDLE@ + x + ",clientY:"@ + y + ",deltaX:"@ + delta_x
        + ",deltaY:"@ + delta_y + SCROLL_CLOSE@
}

/// Writes the script that turns the wheel, with a place and distances that are given in decimal.
pub fn write_scroll(x: &str, y: &str, delta_x: &str, delta_y: &str) -> (r: String)
    ensures
        r@ == scroll_script(x@, y@, delta_x@, delta_y@),
{
    let mut js = SCROLL_OPEN.to_owned();
    js.append(x);
    js.append(",");
    js.append(y);
    js.append(SCROLL_MIDDLE);
    js.append(x);
    js.append(",clientY:");
    js.append(y);
    js.append(",deltaX:");
    js.append(delta_x);
    js.append(",deltaY:");
    js.append(delta_y);
    js.append(SCROLL_CLOSE);
    js
}

/// The decimal text of an integer as a floating-point number: its own digits as far as every
/// integer is a floating-point number, which is up to two to the power of fifty-three.
pub open spec fn integer_as_float(n: int) -> Seq<char> {
    if -0x20_0000_0000_0000 <= n <= 0x20_0000_0000_0000 {
        integer_text(n)
    } else {
        float_text(n)
    }
}

/// The decimal text of a member as a floating-point number; that of zero where it is no number.
pub open spec fn number_text(action: JsonView, key: Seq<char>) -> Seq<char> {
    match action.get(key) {
        Some(JsonView::Unsigned(n)) => integer_as_float(n as int),
        Some(JsonView::Negative(n)) => integer_as_float(n as int),
        Some(JsonView::Float { plain, .. }) => plain,
        _ => "0"@,
    }
}

/// Writes a member as a floating-point number in decimal.
pub fn write_number(action: &Json, key: &str) -> (r: String)
    ensures
        r@ == number_text(action@, key@),
{
    match action.get(key) {
        Some(Json::Unsigned(n)) => display_float(*n as i128),
        Some(Json::Negative(n)) => display_float(*n as i128),
        Some(Json::Float { plain, .. }) => plain.clone(),
        _ => "0".to_owned(),
    }
}

/// The number of the button of an action, cut to eight bits.
pub open spec fn button_of(action: JsonView) -> u8 {
    (action.get_u64_or("button"@, 0) % 256) as u8
}

/// What an action of an input source asks for.
#[derive(Clone, Copy, PartialEq, Eq, Structural)]
pub enum Deed {
    KeyDown,
    KeyUp,
    Move,
    ButtonDown,
    ButtonUp,
    Scroll,
    Pause,
    Nothing,
}

/// What an action asks for, by the kind of its source and its own.
pub open spec fn deed_of(source: Seq<char>, kind: Seq<char>) -> Deed {
    if source == "key"@ && kind == "keyDown"@ {
        Deed::KeyDown
    } else if source == "key"@ && kind == "keyUp"@ {
        Deed::KeyUp
    } else if source == "pointer"@ && kind == "pointerMove"@ {
        Deed::Move
    } else if source == "pointer"@ && kind == "pointerDown"@ {
        Deed::ButtonDown
    } else if source == "pointer"@ && kind == "pointerUp"@ {
        Deed::ButtonUp
    } else if source == "wheel"@ && kind == "scroll"@ {
        Deed::Scroll
    } else if kind == "pause"@ {
        Deed::Pause
    } else {
        Deed::Nothing
    }
}

/// Reads what an action asks for.
pub fn read_deed(source: &str, kind: &str) -> (r: Deed)
    ensures
        r == deed_of(source@, kind@),
{
    if text_eq(source, "key") && text_eq(kind, "keyDown") {
        Deed::KeyDown
    } else if text_eq(source, "key") && text_eq(kind, "keyUp") {
        Deed::KeyUp
    } else if text_eq(source, "pointer") && text_eq(kind, "pointerMove") {
        Deed::Move
    } else if text_eq(source, "pointer") && text_eq(kind, "pointerDown") {
        Deed::ButtonDown
    } else if text_eq(source, "pointer") && text_eq(kind, "pointerUp") {
        Deed::ButtonUp
    } else if text_eq(source, "wheel") && text_eq(kind, "scroll") {
        Deed::Scroll
    } else if text_eq(kind, "pause") {
        Deed::Pause
    } else {
        Deed::Nothing
    }
}

/// What an action of a source asks for; an action without a kind is a pause.
pub open spec fn action_deed(source: JsonView, action: JsonView) -> Deed {
    deed_of(source.get_str_or("type"@, "null"@), action.get_str_or("type"@, "pause"@))
}

/// Whether something is run in the webview for what is asked.
pub open spec fn runs(deed: Deed) -> bool {
    deed != Deed::Pause && deed != Deed::Nothing
}

/// The script for an action.
pub open spec fn action_script(deed: Deed, action: JsonView) -> Seq<char> {
    match deed {
        Deed::KeyDown => key_down_script(action.get_str_or("value"@, ""@)),
        Deed::KeyUp => key_up_script(action.get_str_or("value"@, ""@)),
        Deed::Move => move_script(
            move_origin(action),
            number_text(action, "x"@),
            number_text(action, "y"@),
        ),
        Deed::ButtonDown => button_down_script(button_of(action)),
        Deed::ButtonUp => button_up_script(button_of(action)),
        Deed::Scroll => scroll_script(
            number_text(action, "x"@),
            number_text(action, "y"@),
            number_text(action, "deltaX"@),
            number_text(action, "deltaY"@),
        ),
        _ => seq![],
    }
}

/// Writes the script for an action.
pub fn write_action(deed: Deed, action: &Json) -> (r: String)
    ensures
        r@ == action_script(deed, action@),
{
    match deed {
        Deed::KeyDown => write_key_down(action.get_str_or("value", "").as_str()),
        Deed::KeyUp => write_key_up(action.get_str_or("value", "").as_str()),
        Deed::Move => write_move(
            &read_origin(action),
            write_number(action, "x").as_str(),
            write_number(action, "y").as_str(),
        ),
        Deed::ButtonDown => write_button_down((action.get_u64_or("button", 0) % 256) as u8),
        Deed::ButtonUp => write_button_up((action.get_u64_or("button", 0) % 256) as u8),
        Deed::Scroll => write_scroll(
            write_number(action, "x").as_str(),
            write_number(action, "y").as_str(),
            write_number(action, "deltaX").as_str(),
            write_number(action, "deltaY").as_str(),
        ),
        _ => String::new(),
    }
}

/// The action of a source that is due in a tick, where it has that many.
pub open spec fn due(source: JsonView, tick: nat) -> Option<JsonView> {
    match source.get_array("actions"@) {
        Some(list) => if tick < list.len() {
            Some(list[tick as int])
        } else {
            None
        },
        None => None,
    }
}

/// What the first `n` sources ask for in a tick: whether anything is run, the script, and the
/// longest pause in milliseconds.
pub struct TickView {
    pub runs: bool,
    pub script: Seq<char>,
    pub pause: u64,
}

/// What the first `n` sources ask for in a tick.
pub open spec fn tick_of(sources: Seq<JsonView>, n: nat, tick: nat) -> TickView
    decreases n,
{
    if n == 0 {
        TickView { runs: false, script: seq![], pause: 0 }
    } else {
        let before = tick_of(sources, (n - 1) as nat, tick);
        match due(sources[n - 1], tick) {
            Some(action) => {
                let deed = action_deed(sources[n - 1], action);
                let duration = action.get_u64_or("duration"@, 0);
                TickView {
                    runs: before.runs || runs(deed),
                    script: before.script + action_script(deed, action),
                    pause: if deed == Deed::Pause && duration > before.pause {
                        duration
                    } else {
                        before.pause
                    },
                }
            },
            None => before,
        }
    }
}

/// The number of ticks: the length of the longest list of actions among the first `n` sources.
pub open spec fn tick_count(sources: Seq<JsonView>, n: nat) -> nat
    decreases n,
{
    if n == 0 {
        0
    } else {
        let before = tick_count(sources, (n - 1) as nat);
        match sources[n - 1].get_array("actions"@) {
            Some(list) => if list.len() > before {
                list.len()
            } else {
                before
            },
            None => before,
        }
    }
}

/// Something to do for a request to perform actions: run a script, or wait.
pub enum ActionStep {
    Run(Evaluation),
    Wait { milliseconds: u64 },
}

/// The mathematical value of an [`ActionStep`].
pub enum ActionStepView {
    Run(EvaluationView),
    Wait { milliseconds: u64 },
}

impl View for ActionStep {
    type V = ActionStepView;

    open spec fn view(&self) -> ActionStepView {
        match self {
            ActionStep::Run(e) => ActionStepView::Run(e@),
            ActionStep::Wait { milliseconds } => ActionStepView::Wait {
                milliseconds: *milliseconds,
            },
        }
    }
}

/// The values of a list of steps.
pub open spec fn step_views(steps: Seq<ActionStep>) -> Seq<ActionStepView> {
    steps.map_values(|s: ActionStep| s@)
}

/// What is done in a tick: its script is run, where there is one; then its pause is kept, where
/// there is one.
pub open spec fn tick_steps(t: TickView) -> Seq<ActionStepView> {
    (if t.runs {
        seq![ActionStepView::Run(quietly(t.script + "return null"@))]
    } else {
        seq![]
    }) + (if t.pause > 0 {
        seq![ActionStepView::Wait { milliseconds: t.pause }]
    } else {
        seq![]
    })
}

/// What is done in the first `ticks` ticks.
pub open spec fn action_steps(sources: Seq<JsonView>, ticks: nat) -> Seq<ActionStepView>
    decreases ticks,
{
    if ticks == 0 {
        seq![]
    } else {
        action_steps(sources, (ticks - 1) as nat) + tick_steps(
            tick_of(sources, sources.len(), (ticks - 1) as nat),
        )
    }
}

fn count_ticks(sources: &Vec<Json>) -> (r: usize)
    ensures
        r == tick_count(values(sources@), sources@.len()),
{
    let mut count: usize = 0;
    let mut i: usize = 0;
    while i < sources.len()
        invariant
            i <= sources@.len(),
            count == tick_count(values(sources@), i as nat),
        decreases sources@.len() - i,
    {
        assert(values(sources@)[i as int] == sources@[i as int]@);
        if let Some(list) = sources[i].get_array("actions") {
            if list.len() > count {
                count = list.len();
            }
        }
        i = i + 1;
    }
    count
}

fn push_tick(sources: &Vec<Json>, tick: usize, steps: &mut Vec<ActionStep>)
    ensures
        step_views(final(steps)@) == step_views(old(steps)@) + tick_steps(
            tick_of(values(sources@), sources@.len(), tick as nat),
        ),
{
    let ghost all = values(sources@);
    let mut runs = false;
    let mut script = String::new();
    let mut pause: u64 = 0;
    let mut i: usize = 0;
    while i < sources.len()
        invariant
            all == values(sources@),
            i <= sources@.len(),
            runs == tick_of(all, i as nat, tick as nat).runs,
            script@ == tick_of(all, i as nat, tick as nat).script,
            pause == tick_of(all, i as nat, tick as nat).pause,
        decreases sources@.len() - i,
    {
        let source = &sources[i];
        assert(all[i as int] == source@);
        if let Some(list) = source.get_array("actions") {
            if tick < list.len() {
                let action = &list[tick];
                assert(values(list@)[tick as int] == action@);
                let deed = read_deed(
                    source.get_str_or("type", "null").as_str(),
                    action.get_str_or("type", "pause").as_str(),
                );
                let duration: u64 = action.get_u64_or("duration", 0);
                if deed == Deed::Pause {
                    if duration > pause {
                        pause = duration;
                    }
                } else if deed != Deed::Nothing {
                    runs = true;
                }
                script.append(write_action(deed, action).as_str());
            }
        }
        i = i + 1;
    }
    let ghost before = steps@;
    if runs {
        script.append("return null");
        steps.push(ActionStep::Run(run_quietly(script)));
    }
    let ghost between = steps@;
    if pause > 0 {
        steps.push(ActionStep::Wait { milliseconds: pause });
    }
    proof {
        let t = tick_of(all, sources@.len(), tick as nat);
        let run = ActionStepView::Run(quietly(t.script + "return null"@));
        assert(step_views(between) =~= step_views(before) + (if t.runs {
            seq![run]
        } else {
            seq![]
        }));
        assert(step_views(steps@) =~= step_views(before) + tick_steps(t));
    }
}

/// What is done for a request to perform actions, or the error where it has none.
pub open spec fn perform_steps(body: JsonView) -> Result<Seq<ActionStepView>, ApiErrorView> {
    match body.get_array("actions"@) {
        Some(sources) => Ok(action_steps(sources, tick_count(sources, sources.len()))),
        None => Err(ApiErrorView::Internal("Missing 'actions' array"@)),
    }
}

/// What is done for a request to perform actions, in order, as long as nothing fails;
/// [`go_on_performing`] decides after each step.
pub fn actions_perform(body: &Json) -> (r: Result<Vec<ActionStep>, ApiError>)
    ensures
        match perform_steps(body@) {
            Ok(steps) => r is Ok && step_views(r->Ok_0@) == steps,
            Err(e) => r is Err && r->Err_0@ == e,
        },
{
    match body.get_array("actions") {
        Some(sources) => {
            let count: usize = count_ticks(sources);
            let mut steps: Vec<ActionStep> = Vec::new();
            let mut tick: usize = 0;
            assert(step_views(steps@) =~= seq![]);
            while tick < count
                invariant
                    tick <= count,
                    step_views(steps@) == action_steps(values(sources@), tick as nat),
                decreases count - tick,
            {
                push_tick(sources, tick, &mut steps);
                tick = tick + 1;
            }
            Ok(steps)
        },
        None => Err(ApiError::Internal("Missing 'actions' array".to_owned())),
    }
}

/// What comes next in a request to perform actions: the step at a place, or the reply.
pub enum NextAction {
    Do(usize),
    Reply(Result<Json, ApiError>),
}

/// The mathematical value of a [`NextAction`].
pub enum NextActionView {
    Do(nat),
    Reply(Result<JsonView, ApiErrorView>),
}

impl View for NextAction {
    type V = NextActionView;

    open spec fn view(&self) -> NextActionView {
        match self {
            NextAction::Do(i) => NextActionView::Do(*i as nat),
            NextAction::Reply(r) => NextActionView::Reply(api_result(*r)),
        }
    }
}

/// What comes next once `done` of `count` steps were taken, the last of them with the result
/// `last`: a step that failed ends the request with its error, and after the last step the reply
/// is null.
pub open spec fn next_action(
    count: nat,
    done: nat,
    last: Result<JsonView, ApiErrorView>,
) -> NextActionView {
    match last {
        Err(e) => NextActionView::Reply(Err(e)),
        Ok(_) => if done < count {
            NextActionView::Do(done)
        } else {
            NextActionView::Reply(Ok(JsonView::Null))
        },
    }
}

/// Decides what comes next in a request to perform actions, by the number of its steps, how many
/// of them were taken, and the result of the last one. Before the first step, and after a wait,
/// the result is any value.
pub fn go_on_performing(count: usize, done: usize, last: Result<Json, ApiError>) -> (r: NextAction)
    ensures
        r@ == next_action(count as nat, done as nat, api_result(last)),
{
    match last {
        Err(e) => NextAction::Reply(Err(e)),
        Ok(_) => if done < count {
            NextAction::Do(done)
        } else {
            NextAction::Reply(Ok(Json::Null))
        },
    }
}

/// The reply to a request to release all keys and buttons: nothing is held between requests.
pub fn actions_release() -> (r: Json)
    ensures
        r@ is Null,
{
    Json::Null
}

} // verus!
