//! Scripts that dispatch synthetic input events.

use crate::text::{decimal, decimal_text};
use vstd::prelude::*;

verus! {

pub const EVENT_TARGET: &'static str = "(function(){var __t=";

pub const POINTER_GUARD: &'static str =
    ";if(!__t||typeof PointerEvent==='undefined')return;\
     \n            __t.dispatchEvent(new PointerEvent('";

pub const MOUSE_GUARD: &'static str =
    ";if(!__t)return;\n            __t.dispatchEvent(new MouseEvent('";

pub const EVENT_X: &'static str = "',{\n                clientX:";

pub const EVENT_Y: &'static str = ",\n                clientY:";

pub const EVENT_BUTTON: &'static str = ",\n                button:";

pub const EVENT_BUTTONS: &'static str = ",\n                buttons:";

pub const POINTER_TAIL: &'static str =
    ",\n                bubbles:true,\n                cancelable:true,\
     \n                composed:true,\n                pointerId:1,\
     \n                pointerType:'mouse',\
     \n                isPrimary:true\n            }));})();";

pub const MOUSE_TAIL: &'static str =
    ",\n                bubbles:true,\n                cancelable:true,\
     \n                composed:true\n            }));})();";

/// The script that dispatches an event: the guard tells the kind of event, the tail holds the
/// options that do not vary.
pub open spec fn event_script(
    guard: Seq<char>,
    tail: Seq<char>,
    event_name: Seq<char>,
    target: Seq<char>,
    x: Seq<char>,
    y: Seq<char>,
    button: u8,
    buttons: u8,
) -> Seq<char> {
    EVENT_TARGET@ + target + guard + event_name + EVENT_X@ + x + EVENT_Y@ + y + EVENT_BUTTON@
        + decimal_text(button as nat) + EVENT_BUTTONS@ + decimal_text(buttons as nat) + tail
}

/// The script that dispatches a pointer event at what `target` evaluates to.
pub open spec fn pointer_event(
    event_name: Seq<char>,
    target: Seq<char>,
    x: Seq<char>,
    y: Seq<char>,
    button: u8,
    buttons: u8,
) -> Seq<char> {
    event_script(POINTER_GUARD@, POINTER_TAIL@, event_name, target, x, y, button, buttons)
}

/// The script that dispatches a mouse event at what `target` evaluates to.
pub open spec fn mouse_event(
    event_name: Seq<char>,
    target: Seq<char>,
    x: Seq<char>,
    y: Seq<char>,
    button: u8,
    buttons: u8,
) -> Seq<char> {
    event_script(MOUSE_GUARD@, MOUSE_TAIL@, event_name, target, x, y, button, buttons)
}

fn dispatch_event_js(
    guard: &str,
    tail: &str,
    event_name: &str,
    target_expr: &str,
    x_expr: &str,
    y_expr: &str,
    button: u8,
    buttons: u8,
) -> (r: String)
    ensures
        r@ == event_script(
            guard@,
            tail@,
            event_name@,
            target_expr@,
            x_expr@,
            y_expr@,
            button,
            buttons,
        ),
{
    let mut js = EVENT_TARGET.to_owned();
    js.append(target_expr);
    js.append(guard);
    js.append(event_name);
    js.append(EVENT_X);
    js.append(x_expr);
    js.append(EVENT_Y);
    js.append(y_expr);
    js.append(EVENT_BUTTON);
    js.append(decimal(button as u64).as_str());
    js.append(EVENT_BUTTONS);
    js.append(decimal(buttons as u64).as_str());
    js.append(tail);
    js
}

/// Writes the script that dispatches a pointer event.
pub fn dispatch_pointer_event_js(
    event_name: &str,
    target_expr: &str,
    x_expr: &str,
    y_expr: &str,
    button: u8,
    buttons: u8,
) -> (r: String)
    ensures
        r@ == pointer_event(event_name@, target_expr@, x_expr@, y_expr@, button, buttons),
{
    dispatch_event_js(
        POINTER_GUARD,
        POINTER_TAIL,
        event_name,
        target_expr,
        x_expr,
        y_expr,
        button,
        buttons,
    )
}

/// Writes the script that dispatches a mouse event.
pub fn dispatch_mouse_event_js(
    event_name: &str,
    target_expr: &str,
    x_expr: &str,
    y_expr: &str,
    button: u8,
    buttons: u8,
) -> (r: String)
    ensures
        r@ == mouse_event(event_name@, target_expr@, x_expr@, y_expr@, button, buttons),
{
    dispatch_event_js(
        MOUSE_GUARD,
        MOUSE_TAIL,
        event_name,
        target_expr,
        x_expr,
        y_expr,
        button,
        buttons,
    )
}

} // verus!
