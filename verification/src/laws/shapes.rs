//! What the scripts of the plugin take from their requests.

use crate::document::document;
use crate::laws::members::{lemma_one_member, lemma_with_member};
use crate::laws::texts::{agree_but_for, laid, lemma_laid_push, lemma_part, lemma_two_parts};
use crate::outside::json_quoted;
use crate::plugin::element::{
    attribute_script, file_objects, files_script, keys_script, on_element, on_request,
    property_script, CSS_CLOSE, CSS_OPEN, FILES_CLOSE, FILES_OPEN, KEYS, SHADOW_CLOSE,
    SHADOW_OPEN, XPATH_CLOSE, XPATH_MIDDLE, XPATH_OPEN,
};
use crate::plugin::eval::RESOLVE_ARGS_JS;
use crate::plugin::find::{
    find_fn, find_from_script, find_script, shadow_find_script, CHILD_CSS_CLOSE, CHILD_CSS_OPEN,
    CHILD_XPATH_CLOSE, CHILD_XPATH_OPEN, FIND_CSS_CLOSE, FIND_CSS_MIDDLE, FIND_CSS_OPEN,
    FIND_FROM_OPEN, FIND_XPATH_CLOSE, FIND_XPATH_MIDDLE, FIND_XPATH_OPEN, IN_SHADOW_CLOSE,
    IN_SHADOW_MIDDLE, IN_SHADOW_OPEN, PARENT_CSS_CLOSE, PARENT_CSS_OPEN, PARENT_XPATH_CLOSE,
    PARENT_XPATH_MIDDLE, PARENT_XPATH_OPEN,
};
use crate::plugin::page::{
    cookie_add_script, cookie_delete_script, cookie_domain, cookie_expiry, cookie_get_script,
    navigate_script, prompt_script, run_script, truth, ALERT_SEND, COOKIE_ADD_CLOSE,
    COOKIE_ADD_OPEN, RUN_CLOSE, RUN_MIDDLE, RUN_OPEN,
};
use crate::plugin::picture::{
    element_picture_script, ELEMENT_PICTURE_CLOSE, ELEMENT_PICTURE_OPEN,
};
use crate::plugin::requests::{
    optional, CookieData, ElemReq, FileInfo, FindFromReq, ShadowFindReq,
};
use crate::text::decimal_text;
use crate::value::{object, JsonView};
use vstd::prelude::*;

verus! {

broadcast use lemma_laid_push;

/// Whether a strategy is none of those that a script has for itself, so that it is the same as
/// none.
pub open spec fn is_plain(using: Option<Seq<char>>) -> bool {
    using != Some("xpath"@) && using != Some("shadow"@)
}

/// The script on an element holds its selector as a text and, but for one below a shadow root, its
/// place among those that the selector matches. What is done with the element stands at the end
/// as it is. Every strategy but two is read as css.
pub proof fn law_script_finds_its_element(
    a: Seq<char>,
    b: Seq<char>,
    i: usize,
    j: usize,
    using: Option<Seq<char>>,
    js: Seq<char>,
    other_js: Seq<char>,
)
    ensures
        agree_but_for(
            1,
            on_element(a, i, using, js),
            json_quoted(a),
            on_element(b, i, using, js),
            json_quoted(b),
        ),
        using != Some("shadow"@) ==> agree_but_for(
            1,
            on_element(a, i, using, js),
            decimal_text(i as nat),
            on_element(a, j, using, js),
            decimal_text(j as nat),
        ),
        using == Some("shadow"@) ==> on_element(a, i, using, js) == on_element(a, j, using, js),
        agree_but_for(
            1,
            on_element(a, i, using, js),
            js,
            on_element(a, i, using, other_js),
            other_js,
        ),
        on_element(a, i, using, js).len() >= js.len(),
        on_element(a, i, using, js).skip(on_element(a, i, using, js).len() - js.len()) == js,
        is_plain(using) ==> on_element(a, i, using, js) == on_element(a, i, None, js),
{
    let qa = json_quoted(a);
    let qb = json_quoted(b);
    let di = decimal_text(i as nat);
    let dj = decimal_text(j as nat);
    let all = on_element(a, i, using, js);
    assert(all.skip(all.len() - js.len()) =~= js);
    if using == Some("shadow"@) {
        let own = seq![SHADOW_OPEN@].push(qa).push(SHADOW_CLOSE@).push(js);
        lemma_part(own, seq![SHADOW_OPEN@].push(qb).push(SHADOW_CLOSE@).push(js), 1);
        lemma_part(own, seq![SHADOW_OPEN@].push(qa).push(SHADOW_CLOSE@).push(other_js), 3);
    } else if using == Some("xpath"@) {
        let own = seq![XPATH_OPEN@].push(qa).push(XPATH_MIDDLE@).push(di).push(XPATH_CLOSE@)
            .push(js);
        lemma_part(
            own,
            seq![XPATH_OPEN@].push(qb).push(XPATH_MIDDLE@).push(di).push(XPATH_CLOSE@).push(js),
            1,
        );
        lemma_part(
            own,
            seq![XPATH_OPEN@].push(qa).push(XPATH_MIDDLE@).push(dj).push(XPATH_CLOSE@).push(js),
            3,
        );
        lemma_part(
            own,
            seq![XPATH_OPEN@].push(qa).push(XPATH_MIDDLE@).push(di).push(XPATH_CLOSE@)
                .push(other_js),
            5,
        );
    } else {
        let own = seq![CSS_OPEN@].push(qa).push(")["@).push(di).push(CSS_CLOSE@).push(js);
        lemma_part(own, seq![CSS_OPEN@].push(qb).push(")["@).push(di).push(CSS_CLOSE@).push(js), 1);
        lemma_part(own, seq![CSS_OPEN@].push(qa).push(")["@).push(dj).push(CSS_CLOSE@).push(js), 3);
        lemma_part(
            own,
            seq![CSS_OPEN@].push(qa).push(")["@).push(di).push(CSS_CLOSE@).push(other_js),
            5,
        );
    }
}

/// A request on an element is run on the element that it names, and on no other.
pub proof fn law_request_finds_its_element(body: ElemReq, js: Seq<char>)
    ensures
        on_request(body, js) == on_element(
            body.selector@,
            body.index,
            match body.using {
                Some(u) => Some(u@),
                None => None,
            },
            js,
        ),
{
}

/// The scripts that read an attribute or a property, that type, that go to an address, that
/// answer a prompt and that read or delete a cookie hold the text that they are about as a text,
/// and are the same for every other but for that.
pub proof fn law_scripts_hold_their_text(a: Seq<char>, b: Seq<char>)
    ensures
        ({
            let qa = json_quoted(a);
            let qb = json_quoted(b);
            &&& agree_but_for(1, attribute_script(a), qa, attribute_script(b), qb)
            &&& agree_but_for(1, property_script(a), qa, property_script(b), qb)
            &&& agree_but_for(1, keys_script(a), qa, keys_script(b), qb)
            &&& agree_but_for(1, navigate_script(a), qa, navigate_script(b), qb)
            &&& agree_but_for(1, prompt_script(a), qa, prompt_script(b), qb)
            &&& agree_but_for(1, cookie_get_script(a), qa, cookie_get_script(b), qb)
            &&& agree_but_for(1, cookie_delete_script(a), qa, cookie_delete_script(b), qb)
        }),
{
    let qa = json_quoted(a);
    let qb = json_quoted(b);
    lemma_part(
        seq!["return el.getAttribute("@].push(qa).push(")"@),
        seq!["return el.getAttribute("@].push(qb).push(")"@),
        1,
    );
    lemma_part(seq!["return el["@].push(qa).push("]"@), seq!["return el["@].push(qb).push("]"@), 1);
    lemma_part(
        seq!["el.focus();el.value+="@].push(qa).push(KEYS@),
        seq!["el.focus();el.value+="@].push(qb).push(KEYS@),
        1,
    );
    lemma_part(
        seq!["window.location.href="@].push(qa).push(";return null"@),
        seq!["window.location.href="@].push(qb).push(";return null"@),
        1,
    );
    lemma_part(
        seq![ALERT_SEND@].push(qa).push(";return null"@),
        seq![ALERT_SEND@].push(qb).push(";return null"@),
        1,
    );
    lemma_part(
        seq!["var c=window.__WEBDRIVER__.cookies["@].push(qa).push("];return c||null"@),
        seq!["var c=window.__WEBDRIVER__.cookies["@].push(qb).push("];return c||null"@),
        1,
    );
    lemma_part(
        seq!["delete window.__WEBDRIVER__.cookies["@].push(qa).push("];return null"@),
        seq!["delete window.__WEBDRIVER__.cookies["@].push(qb).push("];return null"@),
        1,
    );
}

/// The script that puts files into an element holds the list of all files as a JSON text, in one
/// place, and is the same for all others but for that. The list has each file in its place, with
/// its name, its contents and its media type as they are.
pub proof fn law_files_are_what_is_set(a: Seq<FileInfo>, b: Seq<FileInfo>, i: int)
    ensures
        agree_but_for(
            1,
            files_script(a),
            document(JsonView::Array(file_objects(a))),
            files_script(b),
            document(JsonView::Array(file_objects(b))),
        ),
        file_objects(a).len() == a.len(),
        0 <= i < a.len() ==> {
            let file = file_objects(a)[i];
            &&& file.get("name"@) == Some(JsonView::Str(a[i].name@))
            &&& file.get("data"@) == Some(JsonView::Str(a[i].data@))
            &&& file.get("mime"@) == Some(JsonView::Str(a[i].mime@))
        },
{
    lemma_part(
        seq![FILES_OPEN@].push(document(JsonView::Array(file_objects(a)))).push(FILES_CLOSE@),
        seq![FILES_OPEN@].push(document(JsonView::Array(file_objects(b)))).push(FILES_CLOSE@),
        1,
    );
    if 0 <= i < a.len() {
        let d = JsonView::Str(a[i].data@);
        let m = JsonView::Str(a[i].mime@);
        let n = JsonView::Str(a[i].name@);
        let one = object("data"@, d);
        let two = one.with("mime"@, m);
        reveal_strlit("name");
        reveal_strlit("data");
        reveal_strlit("mime");
        assert("name"@[0] == 'n' && "data"@[0] == 'd' && "mime"@[0] == 'm');
        lemma_one_member("data"@, d, "name"@);
        lemma_one_member("data"@, d, "data"@);
        lemma_one_member("data"@, d, "mime"@);
        lemma_with_member(one, "mime"@, m, "name"@);
        lemma_with_member(one, "mime"@, m, "data"@);
        lemma_with_member(one, "mime"@, m, "mime"@);
        lemma_with_member(two, "name"@, n, "name"@);
        lemma_with_member(two, "name"@, n, "data"@);
        lemma_with_member(two, "name"@, n, "mime"@);
    }
}

/// The script of a search of the page holds its selector twice, to look for it and to say how
/// what it found was found, and is the same for every other but for that. Every strategy but one
/// is read as css.
pub proof fn law_search_holds_its_selector(
    using: Seq<char>,
    other_using: Seq<char>,
    a: Seq<char>,
    b: Seq<char>,
)
    ensures
        agree_but_for(
            2,
            find_script(using, a),
            json_quoted(a),
            find_script(using, b),
            json_quoted(b),
        ),
        using != "xpath"@ && other_using != "xpath"@ ==> find_script(using, a) == find_script(
            other_using,
            a,
        ),
{
    let qa = json_quoted(a);
    let qb = json_quoted(b);
    if using == "xpath"@ {
        lemma_two_parts(
            seq![FIND_XPATH_OPEN@].push(qa).push(FIND_XPATH_MIDDLE@).push(qa)
                .push(FIND_XPATH_CLOSE@),
            seq![FIND_XPATH_OPEN@].push(qb).push(FIND_XPATH_MIDDLE@).push(qb)
                .push(FIND_XPATH_CLOSE@),
            1,
            3,
        );
    } else {
        lemma_two_parts(
            seq![FIND_CSS_OPEN@].push(qa).push(FIND_CSS_MIDDLE@).push(qa).push(FIND_CSS_CLOSE@),
            seq![FIND_CSS_OPEN@].push(qb).push(FIND_CSS_MIDDLE@).push(qb).push(FIND_CSS_CLOSE@),
            1,
            3,
        );
    }
}

spec fn shadow_find_parts(body: ShadowFindReq) -> Seq<Seq<char>> {
    seq![IN_SHADOW_OPEN@].push(find_fn(optional(body.host_using))).push("("@)
        .push(json_quoted(body.host_selector@)).push(","@)
        .push(decimal_text(body.host_index as nat)).push(IN_SHADOW_MIDDLE@)
        .push(json_quoted(body.value@)).push(IN_SHADOW_CLOSE@)
}

/// The script of a search below a shadow root holds how the host is found, its selector as a text
/// and its place, and the selector that is searched for as a text, each in one place; it is the
/// same for all others but for them.
pub proof fn law_shadow_search_holds_its_selectors(one: ShadowFindReq, other: ShadowFindReq)
    requires
        optional(one.host_using) == optional(other.host_using),
    ensures
        ({
            let same_host = one.host_selector@ == other.host_selector@;
            let same_index = one.host_index == other.host_index;
            let same_value = one.value@ == other.value@;
            let a = shadow_find_script(one);
            let b = shadow_find_script(other);
            &&& same_index && same_value ==> agree_but_for(
                1,
                a,
                json_quoted(one.host_selector@),
                b,
                json_quoted(other.host_selector@),
            )
            &&& same_host && same_value ==> agree_but_for(
                1,
                a,
                decimal_text(one.host_index as nat),
                b,
                decimal_text(other.host_index as nat),
            )
            &&& same_host && same_index ==> agree_but_for(
                1,
                a,
                json_quoted(one.value@),
                b,
                json_quoted(other.value@),
            )
        }),
{
    let a = shadow_find_parts(one);
    let b = shadow_find_parts(other);
    assert(shadow_find_script(one) == laid(a));
    assert(shadow_find_script(other) == laid(b));
    if one.host_index == other.host_index && one.value@ == other.value@ {
        lemma_part(a, b, 3);
    }
    if one.host_selector@ == other.host_selector@ && one.value@ == other.value@ {
        lemma_part(a, b, 5);
    }
    if one.host_selector@ == other.host_selector@ && one.host_index == other.host_index {
        lemma_part(a, b, 7);
    }
}

spec fn find_from_parts(body: FindFromReq) -> Seq<Seq<char>> {
    let (p, q, r) = if optional(body.parent_using) == Some("xpath"@) {
        (PARENT_XPATH_OPEN@, PARENT_XPATH_MIDDLE@, PARENT_XPATH_CLOSE@)
    } else {
        (PARENT_CSS_OPEN@, ")["@, PARENT_CSS_CLOSE@)
    };
    let (x, y) = if body.using@ == "xpath"@ {
        (CHILD_XPATH_OPEN@, CHILD_XPATH_CLOSE@)
    } else {
        (CHILD_CSS_OPEN@, CHILD_CSS_CLOSE@)
    };
    seq![FIND_FROM_OPEN@].push(p).push(json_quoted(body.parent_selector@)).push(q)
        .push(decimal_text(body.parent_index as nat)).push(r).push(x).push(json_quoted(body.value@))
        .push(y)
}

proof fn lemma_find_from(body: FindFromReq)
    ensures
        find_from_script(body) == laid(find_from_parts(body)),
{
    let parts = find_from_parts(body);
    let p = parts[1] + parts[2] + parts[3] + parts[4] + parts[5];
    let c = parts[6] + parts[7] + parts[8];
    assert(laid(parts) == parts[0] + parts[1] + parts[2] + parts[3] + parts[4] + parts[5] + parts[6]
        + parts[7] + parts[8]);
    assert(find_from_script(body) == parts[0] + p + c);
    assert(parts[0] + p =~= parts[0] + parts[1] + parts[2] + parts[3] + parts[4] + parts[5]);
    let lead = parts[0] + p;
    assert(lead + c =~= lead + parts[6] + parts[7] + parts[8]);
}

/// The script of a search below an element holds how the parent is found, its selector as a text
/// and its place, and the selector that is searched for as a text, each in one place; it is the
/// same for all others but for them.
pub proof fn law_search_below_holds_its_selectors(one: FindFromReq, other: FindFromReq)
    requires
        optional(one.parent_using) == optional(other.parent_using),
        one.using@ == other.using@,
    ensures
        ({
            let same_parent = one.parent_selector@ == other.parent_selector@;
            let same_index = one.parent_index == other.parent_index;
            let same_value = one.value@ == other.value@;
            let a = find_from_script(one);
            let b = find_from_script(other);
            &&& same_index && same_value ==> agree_but_for(
                1,
                a,
                json_quoted(one.parent_selector@),
                b,
                json_quoted(other.parent_selector@),
            )
            &&& same_parent && same_value ==> agree_but_for(
                1,
                a,
                decimal_text(one.parent_index as nat),
                b,
                decimal_text(other.parent_index as nat),
            )
            &&& same_parent && same_index ==> agree_but_for(
                1,
                a,
                json_quoted(one.value@),
                b,
                json_quoted(other.value@),
            )
        }),
{
    let a = find_from_parts(one);
    let b = find_from_parts(other);
    lemma_find_from(one);
    lemma_find_from(other);
    if one.parent_index == other.parent_index && one.value@ == other.value@ {
        lemma_part(a, b, 2);
    }
    if one.parent_selector@ == other.parent_selector@ && one.value@ == other.value@ {
        lemma_part(a, b, 4);
    }
    if one.parent_selector@ == other.parent_selector@ && one.parent_index == other.parent_index {
        lemma_part(a, b, 7);
    }
}

/// Both searches, and the picture of an element, read every strategy but one as css.
pub proof fn law_unknown_strategies_are_css(
    one: FindFromReq,
    other: FindFromReq,
    a: ShadowFindReq,
    b: ShadowFindReq,
    e: ElemReq,
    f: ElemReq,
)
    requires
        e.selector@ == f.selector@,
        e.index == f.index,
        optional(e.using) == optional(f.using) || (optional(e.using) != Some("xpath"@)
            && optional(f.using) != Some("xpath"@)),
        one.parent_selector@ == other.parent_selector@,
        one.parent_index == other.parent_index,
        one.value@ == other.value@,
        a.host_selector@ == b.host_selector@,
        a.host_index == b.host_index,
        a.value@ == b.value@,
        one.using@ == other.using@ || (one.using@ != "xpath"@ && other.using@ != "xpath"@),
        optional(one.parent_using) == optional(other.parent_using) || (optional(one.parent_using)
            != Some("xpath"@) && optional(other.parent_using) != Some("xpath"@)),
        optional(a.host_using) == optional(b.host_using) || (optional(a.host_using) != Some(
            "xpath"@,
        ) && optional(b.host_using) != Some("xpath"@)),
    ensures
        find_from_script(one) == find_from_script(other),
        shadow_find_script(a) == shadow_find_script(b),
        element_picture_script(e) == element_picture_script(f),
{
}

spec fn picture_parts(body: ElemReq) -> Seq<Seq<char>> {
    seq![ELEMENT_PICTURE_OPEN@].push(find_fn(optional(body.using))).push("("@)
        .push(json_quoted(body.selector@)).push(","@).push(decimal_text(body.index as nat))
        .push(ELEMENT_PICTURE_CLOSE@)
}

/// The script that takes a picture of an element holds its selector as a text and its place, each
/// in one place; it is the same for all others but for them.
pub proof fn law_picture_is_of_its_element(one: ElemReq, other: ElemReq)
    requires
        optional(one.using) == optional(other.using),
    ensures
        one.index == other.index ==> agree_but_for(
            1,
            element_picture_script(one),
            json_quoted(one.selector@),
            element_picture_script(other),
            json_quoted(other.selector@),
        ),
        one.selector@ == other.selector@ ==> agree_but_for(
            1,
            element_picture_script(one),
            decimal_text(one.index as nat),
            element_picture_script(other),
            decimal_text(other.index as nat),
        ),
{
    let a = picture_parts(one);
    let b = picture_parts(other);
    assert(element_picture_script(one) == laid(a));
    assert(element_picture_script(other) == laid(b));
    if one.index == other.index {
        lemma_part(a, b, 3);
    }
    if one.selector@ == other.selector@ {
        lemma_part(a, b, 5);
    }
}

/// The script that runs a user's script holds the arguments and the script as they are, each in
/// one place, and is the same for all others but for them.
pub proof fn law_users_script_is_run(
    args: Seq<char>,
    other_args: Seq<char>,
    script: Seq<char>,
    other: Seq<char>,
)
    ensures
        agree_but_for(
            1,
            run_script(args, script),
            args,
            run_script(other_args, script),
            other_args,
        ),
        agree_but_for(1, run_script(args, script), script, run_script(args, other), other),
{
    let own = seq![RESOLVE_ARGS_JS@].push(RUN_OPEN@).push(args).push(RUN_MIDDLE@).push(script)
        .push(RUN_CLOSE@);
    lemma_part(
        own,
        seq![RESOLVE_ARGS_JS@].push(RUN_OPEN@).push(other_args).push(RUN_MIDDLE@).push(script)
            .push(RUN_CLOSE@),
        2,
    );
    lemma_part(
        own,
        seq![RESOLVE_ARGS_JS@].push(RUN_OPEN@).push(args).push(RUN_MIDDLE@).push(other)
            .push(RUN_CLOSE@),
        4,
    );
}

spec fn cookie_parts(c: CookieData) -> Seq<Seq<char>> {
    seq![COOKIE_ADD_OPEN@].push(json_quoted(c.name@)).push("]={name:"@).push(json_quoted(c.name@))
        .push(",value:"@).push(json_quoted(c.value@)).push(",path:"@).push(json_quoted(c.path@))
        .push(",domain:"@).push(cookie_domain(c)).push(",secure:"@).push(truth(c.secure))
        .push(",httpOnly:"@).push(truth(c.http_only)).push(",expiry:"@).push(cookie_expiry(c))
        .push(COOKIE_ADD_CLOSE@)
}

/// Whether two cookies are the same but for what one of these says: the first to the seventh of
/// name, value, path, domain, security, hiding from scripts, and expiry.
pub open spec fn alike_but_for(one: CookieData, other: CookieData, k: int) -> bool {
    &&& k == 1 || one.name@ == other.name@
    &&& k == 2 || one.value@ == other.value@
    &&& k == 3 || one.path@ == other.path@
    &&& k == 4 || optional(one.domain) == optional(other.domain)
    &&& k == 5 || one.secure == other.secure
    &&& k == 6 || one.http_only == other.http_only
    &&& k == 7 || one.expiry == other.expiry
}

/// The word for a truth value.
pub open spec fn word(b: bool) -> Seq<char> {
    if b {
        "true"@
    } else {
        "false"@
    }
}

/// The script that adds a cookie holds the name twice, to store it and in the cookie, and all else
/// that the cookie says in one place each; it is the same for all others but for them. A cookie
/// without a domain gets that of the page, and one without an expiry has none.
pub proof fn law_cookie_is_what_is_added(one: CookieData, other: CookieData)
    ensures
        ({
            let a = cookie_add_script(one);
            let b = cookie_add_script(other);
            let domain = |c: CookieData|
                match c.domain {
                    Some(d) => json_quoted(d@),
                    None => "window.location.hostname"@,
                };
            let expiry = |c: CookieData|
                match c.expiry {
                    Some(e) => decimal_text(e as nat),
                    None => "null"@,
                };
            &&& alike_but_for(one, other, 1) ==> agree_but_for(
                2,
                a,
                json_quoted(one.name@),
                b,
                json_quoted(other.name@),
            )
            &&& alike_but_for(one, other, 2) ==> agree_but_for(
                1,
                a,
                json_quoted(one.value@),
                b,
                json_quoted(other.value@),
            )
            &&& alike_but_for(one, other, 3) ==> agree_but_for(
                1,
                a,
                json_quoted(one.path@),
                b,
                json_quoted(other.path@),
            )
            &&& alike_but_for(one, other, 4) ==> agree_but_for(
                1,
                a,
                domain(one),
                b,
                domain(other),
            )
            &&& alike_but_for(one, other, 5) ==> agree_but_for(
                1,
                a,
                word(one.secure),
                b,
                word(other.secure),
            )
            &&& alike_but_for(one, other, 6) ==> agree_but_for(
                1,
                a,
                word(one.http_only),
                b,
                word(other.http_only),
            )
            &&& alike_but_for(one, other, 7) ==> agree_but_for(
                1,
                a,
                expiry(one),
                b,
                expiry(other),
            )
        }),
{
    let a = cookie_parts(one);
    let b = cookie_parts(other);
    assert(cookie_add_script(one) == laid(a));
    assert(cookie_add_script(other) == laid(b));
    if alike_but_for(one, other, 1) {
        lemma_two_parts(a, b, 1, 3);
    }
    if alike_but_for(one, other, 2) {
        lemma_part(a, b, 5);
    }
    if alike_but_for(one, other, 3) {
        lemma_part(a, b, 7);
    }
    if alike_but_for(one, other, 4) {
        lemma_part(a, b, 9);
    }
    if alike_but_for(one, other, 5) {
        lemma_part(a, b, 11);
    }
    if alike_but_for(one, other, 6) {
        lemma_part(a, b, 13);
    }
    if alike_but_for(one, other, 7) {
        lemma_part(a, b, 15);
    }
}

} // verus!
