//! What the scripts of input actions take from their actions.

use crate::laws::texts::{
    agree_but_for, lemma_agree_joined, lemma_cut_earlier, lemma_once, lemma_twice,
};
use crate::outside::json_quoted;
use crate::plugin::actions::{
    action_deed, action_script, button_of, deed_of, mouse_here, move_origin, move_script,
    number_text, pointer_here, runs, Deed, OriginView, KEY_DOWN_CLOSE, KEY_DOWN_OPEN,
    KEY_UP_CLOSE, KEY_UP_OPEN, MOVE_ELEMENT_CLOSE, MOVE_ELEMENT_MIDDLE, MOVE_ELEMENT_OPEN,
    MOVE_POINTER_CLOSE, MOVE_POINTER_OPEN, MOVE_VIEWPORT_CLOSE, MOVE_VIEWPORT_OPEN,
    POINTER_TARGET, POINTER_X, POINTER_Y, SCROLL_CLOSE, SCROLL_MIDDLE, SCROLL_OPEN,
};
use crate::plugin::events::{
    mouse_event, pointer_event, EVENT_BUTTON, EVENT_BUTTONS, EVENT_TARGET, EVENT_X, EVENT_Y,
    MOUSE_GUARD, MOUSE_TAIL, POINTER_GUARD, POINTER_TAIL,
};
use crate::text::decimal_text;
use crate::value::JsonView;
use vstd::prelude::*;

verus! {

/// Every kind of action but a pause is performed by one type of source and by no other; a pause
/// is one for every source. Actions of different kinds are performed in different ways.
pub proof fn law_sources_perform_their_own_actions(source: Seq<char>, kind: Seq<char>)
    ensures
        deed_of(source, kind) == Deed::KeyDown <==> source == "key"@ && kind == "keyDown"@,
        deed_of(source, kind) == Deed::KeyUp <==> source == "key"@ && kind == "keyUp"@,
        deed_of(source, kind) == Deed::Move <==> source == "pointer"@ && kind == "pointerMove"@,
        deed_of(source, kind) == Deed::ButtonDown <==> source == "pointer"@ && kind
            == "pointerDown"@,
        deed_of(source, kind) == Deed::ButtonUp <==> source == "pointer"@ && kind == "pointerUp"@,
        deed_of(source, kind) == Deed::Scroll <==> source == "wheel"@ && kind == "scroll"@,
        deed_of(source, kind) == Deed::Pause <==> kind == "pause"@,
{
    reveal_strlit("key");
    reveal_strlit("pointer");
    reveal_strlit("wheel");
    reveal_strlit("keyDown");
    reveal_strlit("keyUp");
    reveal_strlit("pointerMove");
    reveal_strlit("pointerDown");
    reveal_strlit("pointerUp");
    reveal_strlit("scroll");
    reveal_strlit("pause");
    assert("key"@.len() == 3 && "pointer"@.len() == 7 && "wheel"@.len() == 5);
    assert("keyDown"@.len() == 7 && "keyUp"@.len() == 5 && "pointerMove"@.len() == 11);
    assert("pointerDown"@.len() == 11 && "pointerUp"@.len() == 9 && "scroll"@.len() == 6);
    assert("pause"@.len() == 5 && "pause"@[0] == 'p' && "keyUp"@[0] == 'k');
    assert("pointerMove"@[7] == 'M' && "pointerDown"@[7] == 'D');
}

/// What an action asks for goes by the type of its source and its own. An action without a type is
/// a pause, whatever its source is, and a source without a type performs nothing.
pub proof fn law_types_tell_what_is_asked(
    source: JsonView,
    action: JsonView,
    a: Seq<char>,
    b: Seq<char>,
)
    ensures
        source.get("type"@) == Some(JsonView::Str(a)) && action.get("type"@) == Some(
            JsonView::Str(b),
        ) ==> action_deed(source, action) == deed_of(a, b),
        action.get("type"@) is None ==> action_deed(source, action) == Deed::Pause,
        source.get("type"@) is None ==> !runs(action_deed(source, action)),
{
    law_sources_perform_their_own_actions(source.get_str_or("type"@, "null"@), "pause"@);
    law_sources_perform_their_own_actions("null"@, action.get_str_or("type"@, "pause"@));
    reveal_strlit("null");
    reveal_strlit("key");
    reveal_strlit("pointer");
    reveal_strlit("wheel");
    assert("null"@.len() == 4 && "key"@.len() == 3 && "pointer"@.len() == 7);
    assert("wheel"@.len() == 5);
}

/// The scripts that press and let go of a key hold the key as a text, and are the same for every
/// other key but for that; an action without a key has the empty one.
pub proof fn law_key_is_what_is_pressed(
    deed: Deed,
    one: JsonView,
    a: Seq<char>,
    other: JsonView,
    b: Seq<char>,
)
    requires
        deed == Deed::KeyDown || deed == Deed::KeyUp,
        one.get("value"@) == Some(JsonView::Str(a)) || (one.get("value"@) is None && a == ""@),
        other.get("value"@) == Some(JsonView::Str(b)) || (other.get("value"@) is None && b == ""@),
    ensures
        agree_but_for(
            1,
            action_script(deed, one),
            json_quoted(a),
            action_script(deed, other),
            json_quoted(b),
        ),
{
    let (p, q) = if deed == Deed::KeyDown {
        (KEY_DOWN_OPEN@, KEY_DOWN_CLOSE@)
    } else {
        (KEY_UP_OPEN@, KEY_UP_CLOSE@)
    };
    lemma_once(
        p,
        q,
        action_script(deed, one),
        json_quoted(a),
        action_script(deed, other),
        json_quoted(b),
    );
}

/// The button of an action is the number that it gives, as far as eight bits hold it, and the
/// first one where it gives none.
pub proof fn law_button_is_kept(action: JsonView, n: u64)
    ensures
        action.get("button"@) == Some(JsonView::Unsigned(n)) && n < 256 ==> button_of(action) == n,
        action.get("button"@) == Some(JsonView::Unsigned(n)) ==> (n - button_of(action)) % 256
            == 0,
        action.get("button"@) is None ==> button_of(action) == 0,
{
}

/// The script of an event, cut at one of its parts: before it, and behind it.
proof fn lemma_event_parts(
    pointer: bool,
    name: Seq<char>,
    target: Seq<char>,
    x: Seq<char>,
    y: Seq<char>,
    button: u8,
    buttons: u8,
)
    ensures
        ({
            let (guard, tail) = if pointer {
                (POINTER_GUARD@, POINTER_TAIL@)
            } else {
                (MOUSE_GUARD@, MOUSE_TAIL@)
            };
            let all = if pointer {
                pointer_event(name, target, x, y, button, buttons)
            } else {
                mouse_event(name, target, x, y, button, buttons)
            };
            let d = decimal_text(button as nat);
            let ds = decimal_text(buttons as nat);
            let to_name = EVENT_TARGET@ + target + guard;
            let to_x = to_name + name + EVENT_X@;
            let to_y = to_x + x + EVENT_Y@;
            let to_button = to_y + y + EVENT_BUTTON@;
            let to_buttons = to_button + d + EVENT_BUTTONS@;
            let from_button = EVENT_BUTTONS@ + ds + tail;
            let from_y = EVENT_BUTTON@ + d + from_button;
            let from_x = EVENT_Y@ + y + from_y;
            let from_name = EVENT_X@ + x + from_x;
            let from_target = guard + name + from_name;
            &&& all == EVENT_TARGET@ + target + from_target
            &&& all == to_name + name + from_name
            &&& all == to_x + x + from_x
            &&& all == to_y + y + from_y
            &&& all == to_button + d + from_button
            &&& all == to_buttons + ds + tail
        }),
{
    let (guard, tail) = if pointer {
        (POINTER_GUARD@, POINTER_TAIL@)
    } else {
        (MOUSE_GUARD@, MOUSE_TAIL@)
    };
    let d = decimal_text(button as nat);
    let ds = decimal_text(buttons as nat);
    let to_name = EVENT_TARGET@ + target + guard;
    let to_x = to_name + name + EVENT_X@;
    let to_y = to_x + x + EVENT_Y@;
    let to_button = to_y + y + EVENT_BUTTON@;
    let from_button = EVENT_BUTTONS@ + ds + tail;
    let from_y = EVENT_BUTTON@ + d + from_button;
    let from_x = EVENT_Y@ + y + from_y;
    let from_name = EVENT_X@ + x + from_x;
    lemma_cut_earlier(to_button, d, EVENT_BUTTONS@, ds, tail);
    lemma_cut_earlier(to_y, y, EVENT_BUTTON@, d, from_button);
    lemma_cut_earlier(to_x, x, EVENT_Y@, y, from_y);
    lemma_cut_earlier(to_name, name, EVENT_X@, x, from_x);
    lemma_cut_earlier(EVENT_TARGET@, target, guard, name, from_name);
}

/// The script of an event holds its name, its target, its place, its button and the buttons that
/// are down, each in one place, and is the same for all others but for them.
pub proof fn law_event_holds_its_parts(
    pointer: bool,
    name: Seq<char>,
    target: Seq<char>,
    x: Seq<char>,
    y: Seq<char>,
    button: u8,
    buttons: u8,
    t: Seq<char>,
    n: u8,
)
    ensures
        ({
            let script = |name: Seq<char>, target: Seq<char>, x: Seq<char>, y: Seq<char>, b: u8,
                bs: u8|
                if pointer {
                    pointer_event(name, target, x, y, b, bs)
                } else {
                    mouse_event(name, target, x, y, b, bs)
                };
            let own = script(name, target, x, y, button, buttons);
            let d = decimal_text(button as nat);
            let ds = decimal_text(buttons as nat);
            let dn = decimal_text(n as nat);
            &&& agree_but_for(1, own, name, script(t, target, x, y, button, buttons), t)
            &&& agree_but_for(1, own, target, script(name, t, x, y, button, buttons), t)
            &&& agree_but_for(1, own, x, script(name, target, t, y, button, buttons), t)
            &&& agree_but_for(1, own, y, script(name, target, x, t, button, buttons), t)
            &&& agree_but_for(1, own, d, script(name, target, x, y, n, buttons), dn)
            &&& agree_but_for(1, own, ds, script(name, target, x, y, button, n), dn)
        }),
{
    let (guard, tail) = if pointer {
        (POINTER_GUARD@, POINTER_TAIL@)
    } else {
        (MOUSE_GUARD@, MOUSE_TAIL@)
    };
    let script = |name: Seq<char>, target: Seq<char>, x: Seq<char>, y: Seq<char>, b: u8, bs: u8|
        if pointer {
            pointer_event(name, target, x, y, b, bs)
        } else {
            mouse_event(name, target, x, y, b, bs)
        };
    let own = script(name, target, x, y, button, buttons);
    let d = decimal_text(button as nat);
    let ds = decimal_text(buttons as nat);
    let dn = decimal_text(n as nat);
    let to_name = EVENT_TARGET@ + target + guard;
    let to_x = to_name + name + EVENT_X@;
    let to_y = to_x + x + EVENT_Y@;
    let to_button = to_y + y + EVENT_BUTTON@;
    let to_buttons = to_button + d + EVENT_BUTTONS@;
    let from_button = EVENT_BUTTONS@ + ds + tail;
    let from_y = EVENT_BUTTON@ + d + from_button;
    let from_x = EVENT_Y@ + y + from_y;
    let from_name = EVENT_X@ + x + from_x;
    let from_target = guard + name + from_name;
    lemma_event_parts(pointer, name, target, x, y, button, buttons);
    lemma_event_parts(pointer, t, target, x, y, button, buttons);
    lemma_event_parts(pointer, name, t, x, y, button, buttons);
    lemma_event_parts(pointer, name, target, t, y, button, buttons);
    lemma_event_parts(pointer, name, target, x, t, button, buttons);
    lemma_event_parts(pointer, name, target, x, y, n, buttons);
    lemma_event_parts(pointer, name, target, x, y, button, n);
    lemma_once(to_name, from_name, own, name, script(t, target, x, y, button, buttons), t);
    lemma_once(
        EVENT_TARGET@,
        from_target,
        own,
        target,
        script(name, t, x, y, button, buttons),
        t,
    );
    lemma_once(to_x, from_x, own, x, script(name, target, t, y, button, buttons), t);
    lemma_once(to_y, from_y, own, y, script(name, target, x, t, button, buttons), t);
    lemma_once(to_button, from_button, own, d, script(name, target, x, y, n, buttons), dn);
    lemma_once(to_buttons, tail, own, ds, script(name, target, x, y, button, n), dn);
}

proof fn lemma_here(name: Seq<char>, a: u8, b: u8, buttons: u8)
    ensures
        agree_but_for(
            1,
            pointer_here(name, a, buttons),
            decimal_text(a as nat),
            pointer_here(name, b, buttons),
            decimal_text(b as nat),
        ),
        agree_but_for(
            1,
            mouse_here(name, a, buttons),
            decimal_text(a as nat),
            mouse_here(name, b, buttons),
            decimal_text(b as nat),
        ),
{
    law_event_holds_its_parts(
        true,
        name,
        POINTER_TARGET@,
        POINTER_X@,
        POINTER_Y@,
        a,
        buttons,
        name,
        b,
    );
    law_event_holds_its_parts(
        false,
        name,
        POINTER_TARGET@,
        POINTER_X@,
        POINTER_Y@,
        a,
        buttons,
        name,
        b,
    );
}

/// The scripts that press and let go of a button hold its number in each of their events, and are
/// the same for every other button but for that.
pub proof fn law_button_is_what_is_pressed(one: JsonView, other: JsonView)
    ensures
        agree_but_for(
            2,
            action_script(Deed::ButtonDown, one),
            decimal_text(button_of(one) as nat),
            action_script(Deed::ButtonDown, other),
            decimal_text(button_of(other) as nat),
        ),
        agree_but_for(
            3,
            action_script(Deed::ButtonUp, one),
            decimal_text(button_of(one) as nat),
            action_script(Deed::ButtonUp, other),
            decimal_text(button_of(other) as nat),
        ),
{
    let a = button_of(one);
    let b = button_of(other);
    let da = decimal_text(a as nat);
    let db = decimal_text(b as nat);
    lemma_here("pointerdown"@, a, b, 1);
    lemma_here("mousedown"@, a, b, 1);
    lemma_here("pointerup"@, a, b, 0);
    lemma_here("mouseup"@, a, b, 0);
    lemma_here("click"@, a, b, 0);
    lemma_agree_joined(
        1,
        pointer_here("pointerdown"@, a, 1),
        pointer_here("pointerdown"@, b, 1),
        1,
        mouse_here("mousedown"@, a, 1),
        mouse_here("mousedown"@, b, 1),
        da,
        db,
    );
    lemma_agree_joined(
        1,
        pointer_here("pointerup"@, a, 0),
        pointer_here("pointerup"@, b, 0),
        1,
        mouse_here("mouseup"@, a, 0),
        mouse_here("mouseup"@, b, 0),
        da,
        db,
    );
    lemma_agree_joined(
        2,
        pointer_here("pointerup"@, a, 0) + mouse_here("mouseup"@, a, 0),
        pointer_here("pointerup"@, b, 0) + mouse_here("mouseup"@, b, 0),
        1,
        mouse_here("click"@, a, 0),
        mouse_here("click"@, b, 0),
        da,
        db,
    );
}

/// A number of an action is written with its own digits, a whole one as far as a floating-point
/// number holds every whole one; what is no number, or not there, counts as zero.
pub proof fn law_numbers_keep_their_digits(action: JsonView, key: Seq<char>, n: u64, m: i64)
    ensures
        action.get(key) == Some(JsonView::Unsigned(n)) && n <= 0x20_0000_0000_0000
            ==> number_text(action, key) == decimal_text(n as nat),
        action.get(key) == Some(JsonView::Negative(m)) && -0x20_0000_0000_0000 <= m < 0
            ==> number_text(action, key) == "-"@ + decimal_text((-m) as nat),
        action.get(key) matches Some(JsonView::Float { plain, .. }) ==> number_text(action, key)
            == plain,
        (action.get(key) matches Some(v) ==> v is Null || v is Bool || v is Str || v is Array || v
            is Object) ==> number_text(action, key) == "0"@,
{
}

proof fn lemma_move_shape(
    p: Seq<char>,
    x: Seq<char>,
    q: Seq<char>,
    y: Seq<char>,
    z: Seq<char>,
    e: Seq<char>,
    f: Seq<char>,
)
    ensures
        p + x + q + y + z + e + f == p + x + (q + y + z + e + f),
        p + x + q + y + z + e + f == (p + x + q) + y + (z + e + f),
{
}

/// The script that moves the pointer holds both distances, each in one place, and is the same for
/// all others but for them. Where the origin should name an element and does not, the pointer
/// stays where it is.
pub proof fn law_distances_are_what_is_moved(one: JsonView, other: JsonView)
    requires
        one.get("origin"@) == other.get("origin"@),
    ensures
        move_origin(one) is Unknown ==> action_script(Deed::Move, one) == pointer_here(
            "pointermove"@,
            0,
            0,
        ) + mouse_here("mousemove"@, 0, 0),
        move_origin(one) !is Unknown && one.get("y"@) == other.get("y"@) ==> agree_but_for(
            1,
            action_script(Deed::Move, one),
            number_text(one, "x"@),
            action_script(Deed::Move, other),
            number_text(other, "x"@),
        ),
        move_origin(one) !is Unknown && one.get("x"@) == other.get("x"@) ==> agree_but_for(
            1,
            action_script(Deed::Move, one),
            number_text(one, "y"@),
            action_script(Deed::Move, other),
            number_text(other, "y"@),
        ),
{
    let x = number_text(one, "x"@);
    let y = number_text(one, "y"@);
    let u = number_text(other, "x"@);
    let w = number_text(other, "y"@);
    let e = pointer_here("pointermove"@, 0, 0);
    let f = mouse_here("mousemove"@, 0, 0);
    let (p, q, z) = match move_origin(one) {
        OriginView::Element { selector, index } => (
            MOVE_ELEMENT_OPEN@ + json_quoted(selector) + ")["@ + decimal_text(index as nat)
                + MOVE_ELEMENT_MIDDLE@,
            MOVE_ELEMENT_CLOSE@,
            ";}})();"@,
        ),
        OriginView::Pointer => (MOVE_POINTER_OPEN@, MOVE_POINTER_CLOSE@, ";"@),
        _ => (MOVE_VIEWPORT_OPEN@, MOVE_VIEWPORT_CLOSE@, ";"@),
    };
    let none: Seq<char> = seq![];
    assert(none + e + f =~= e + f);
    let own = p + x + q + y + z + e + f;
    lemma_move_shape(p, x, q, y, z, e, f);
    lemma_move_shape(p, u, q, y, z, e, f);
    lemma_move_shape(p, x, q, w, z, e, f);
    lemma_once(p, q + y + z + e + f, own, x, p + u + q + y + z + e + f, u);
    lemma_once(p + x + q, z + e + f, own, y, p + x + q + w + z + e + f, w);
}

/// A move is measured from where the pointer is for the origin that says so, from the centre of
/// an element for an origin that is an object, whose first member says how the element is found,
/// and from the corner of the viewport for every other origin and for none.
pub proof fn law_origin_of_a_move(action: JsonView, v: JsonView)
    ensures
        action.get("origin"@) == Some(JsonView::Str("pointer"@)) ==> move_origin(action)
            == OriginView::Pointer,
        action.get("origin"@) is None ==> move_origin(action) == OriginView::Viewport,
        action.get("origin"@) == Some(v) && v != JsonView::Str("pointer"@) && v !is Object
            ==> move_origin(action) == OriginView::Viewport,
        action.get("origin"@) matches Some(JsonView::Object(m)) ==> move_origin(action) == (if 0
            < m.len() && m[0].1 is Object {
            OriginView::Element {
                selector: match m[0].1.get("selector"@) {
                    Some(JsonView::Str(s)) => s,
                    _ => seq![],
                },
                index: match m[0].1.get("index"@) {
                    Some(JsonView::Unsigned(n)) => n,
                    _ => 0,
                },
            }
        } else {
            OriginView::Unknown
        }),
{
    reveal_strlit("");
    assert(""@ =~= seq![]);
}

/// The script that moves the pointer over an element holds how the element is found: its selector
/// as a text and its place among those that the selector matches.
pub proof fn law_moved_over_element_is_found(
    a: Seq<char>,
    b: Seq<char>,
    i: u64,
    j: u64,
    x: Seq<char>,
    y: Seq<char>,
)
    ensures
        agree_but_for(
            1,
            move_script(OriginView::Element { selector: a, index: i }, x, y),
            json_quoted(a),
            move_script(OriginView::Element { selector: b, index: i }, x, y),
            json_quoted(b),
        ),
        agree_but_for(
            1,
            move_script(OriginView::Element { selector: a, index: i }, x, y),
            decimal_text(i as nat),
            move_script(OriginView::Element { selector: a, index: j }, x, y),
            decimal_text(j as nat),
        ),
{
    let fa = move_script(OriginView::Element { selector: a, index: i }, x, y);
    let fb = move_script(OriginView::Element { selector: b, index: i }, x, y);
    let fj = move_script(OriginView::Element { selector: a, index: j }, x, y);
    let di = decimal_text(i as nat);
    let dj = decimal_text(j as nat);
    let tail = MOVE_ELEMENT_MIDDLE@ + x + (MOVE_ELEMENT_CLOSE@ + y + ";}})();"@ + pointer_here(
        "pointermove"@,
        0,
        0,
    ) + mouse_here("mousemove"@, 0, 0));
    lemma_found_shape(a, i, x, y);
    lemma_found_shape(b, i, x, y);
    lemma_found_shape(a, j, x, y);
    lemma_once(
        MOVE_ELEMENT_OPEN@,
        ")["@ + di + tail,
        fa,
        json_quoted(a),
        fb,
        json_quoted(b),
    );
    lemma_once(MOVE_ELEMENT_OPEN@ + json_quoted(a) + ")["@, tail, fa, di, fj, dj);
}

proof fn lemma_found_shape(selector: Seq<char>, index: u64, x: Seq<char>, y: Seq<char>)
    ensures
        ({
            let all = move_script(OriginView::Element { selector, index }, x, y);
            let d = decimal_text(index as nat);
            let tail = MOVE_ELEMENT_MIDDLE@ + x + (MOVE_ELEMENT_CLOSE@ + y + ";}})();"@
                + pointer_here("pointermove"@, 0, 0) + mouse_here("mousemove"@, 0, 0));
            &&& all == MOVE_ELEMENT_OPEN@ + json_quoted(selector) + (")["@ + d + tail)
            &&& all == (MOVE_ELEMENT_OPEN@ + json_quoted(selector) + ")["@) + d + tail
        }),
{
    let d = decimal_text(index as nat);
    let lead = MOVE_ELEMENT_OPEN@ + json_quoted(selector) + ")["@;
    let e = pointer_here("pointermove"@, 0, 0);
    let f = mouse_here("mousemove"@, 0, 0);
    let rest = MOVE_ELEMENT_CLOSE@ + y + ";}})();"@ + e + f;
    lemma_move_shape(
        lead + d + MOVE_ELEMENT_MIDDLE@,
        x,
        MOVE_ELEMENT_CLOSE@,
        y,
        ";}})();"@,
        e,
        f,
    );
    lemma_cut_earlier(lead, d, MOVE_ELEMENT_MIDDLE@, x, rest);
    lemma_cut_earlier(
        MOVE_ELEMENT_OPEN@,
        json_quoted(selector),
        ")["@,
        d,
        MOVE_ELEMENT_MIDDLE@ + x + rest,
    );
}

proof fn lemma_scroll_shape(
    p: Seq<char>,
    x: Seq<char>,
    c: Seq<char>,
    y: Seq<char>,
    m: Seq<char>,
    cy: Seq<char>,
    kx: Seq<char>,
    dx: Seq<char>,
    ky: Seq<char>,
    dy: Seq<char>,
    z: Seq<char>,
)
    ensures
        ({
            let all = p + x + c + y + m + x + cy + y + kx + dx + ky + dy + z;
            &&& all == p + x + (c + y + m) + x + (cy + y + kx + dx + ky + dy + z)
            &&& all == (p + x + c) + y + (m + x + cy) + y + (kx + dx + ky + dy + z)
            &&& all == (p + x + c + y + m + x + cy + y + kx) + dx + (ky + dy + z)
        }),
{
    let all = p + x + c + y + m + x + cy + y + kx + dx + ky + dy + z;
    let to_x = p + x + c + y + m + x;
    let to_y = to_x + cy + y;
    assert(to_x =~= p + x + (c + y + m) + x);
    assert(to_y =~= (p + x + c) + y + (m + x + cy) + y);
    assert(all =~= to_x + (cy + y + kx + dx + ky + dy + z));
    assert(all =~= to_y + (kx + dx + ky + dy + z));
    assert(all =~= (to_y + kx + dx) + (ky + dy + z));
}

/// The script that turns the wheel holds its place twice, where it looks for the target and in
/// the event, and both distances once; it is the same for all others but for them.
pub proof fn law_scroll_holds_its_numbers(one: JsonView, other: JsonView, key: Seq<char>)
    requires
        key == "x"@ || key == "y"@ || key == "deltaX"@ || key == "deltaY"@,
        forall|k: Seq<char>|
            k != key ==> #[trigger] number_text(one, k) == number_text(other, k),
    ensures
        agree_but_for(
            if key == "x"@ || key == "y"@ {
                2
            } else {
                1
            },
            action_script(Deed::Scroll, one),
            number_text(one, key),
            action_script(Deed::Scroll, other),
            number_text(other, key),
        ),
{
    reveal_strlit("x");
    reveal_strlit("y");
    reveal_strlit("deltaX");
    reveal_strlit("deltaY");
    assert("x"@[0] == 'x' && "y"@[0] == 'y' && "deltaX"@[5] == 'X' && "deltaY"@[5] == 'Y');
    assert("x"@.len() == 1 && "y"@.len() == 1 && "deltaX"@.len() == 6 && "deltaY"@.len() == 6);
    let x = number_text(one, "x"@);
    let y = number_text(one, "y"@);
    let dx = number_text(one, "deltaX"@);
    let dy = number_text(one, "deltaY"@);
    let own = action_script(Deed::Scroll, one);
    let all = action_script(Deed::Scroll, other);
    let b = number_text(other, key);
    let (p, c, m) = (SCROLL_OPEN@, ","@, SCROLL_MIDDLE@);
    let (cy, kx, ky, z) = (",clientY:"@, ",deltaX:"@, ",deltaY:"@, SCROLL_CLOSE@);
    lemma_scroll_shape(p, x, c, y, m, cy, kx, dx, ky, dy, z);
    if key == "x"@ {
        lemma_scroll_shape(p, b, c, y, m, cy, kx, dx, ky, dy, z);
        lemma_twice(p, c + y + m, cy + y + kx + dx + ky + dy + z, own, x, all, b);
    } else if key == "y"@ {
        lemma_scroll_shape(p, x, c, b, m, cy, kx, dx, ky, dy, z);
        lemma_twice(p + x + c, m + x + cy, kx + dx + ky + dy + z, own, y, all, b);
    } else {
        let lead = p + x + c + y + m + x + cy + y + kx;
        if key == "deltaX"@ {
            lemma_scroll_shape(p, x, c, y, m, cy, kx, b, ky, dy, z);
            lemma_once(lead, ky + dy + z, own, dx, all, b);
        } else {
            lemma_once(lead + dx + ky, z, own, dy, all, b);
        }
    }
}

} // verus!
