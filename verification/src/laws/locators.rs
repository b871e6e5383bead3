//! How the text of a search reaches the plugin.

use crate::driver::locator::{locator, translated};
use crate::driver::request::{first_step, Kind, RequestView};
use crate::driver::session::SessionView;
use crate::driver::step::{StepView, ThenView};
use crate::laws::members::{lemma_one_member, lemma_with_member};
use crate::laws::replies::reports;
use crate::laws::texts::{agree_but_for, lemma_once};
use crate::value::{object, JsonView};
use vstd::prelude::*;

verus! {

/// Whether a strategy takes the text of a request as the whole selector.
pub open spec fn takes_whole(strategy: Seq<char>) -> bool {
    strategy == "css selector"@ || strategy == "tag name"@ || strategy == "xpath"@
}

/// Whether a strategy looks for the text of a link.
pub open spec fn takes_link(strategy: Seq<char>) -> bool {
    strategy == "link text"@ || strategy == "partial link text"@
}

proof fn lemma_strategies()
    ensures
        forall|s: Seq<char>| !(#[trigger] takes_whole(s) && takes_link(s)),
        "link text"@ != "partial link text"@,
        "xpath"@ != "css selector"@,
        "xpath"@ != "tag name"@,
        "css"@ != "xpath"@,
{
    reveal_strlit("css selector");
    reveal_strlit("tag name");
    reveal_strlit("xpath");
    reveal_strlit("css");
    reveal_strlit("link text");
    reveal_strlit("partial link text");
    assert("css selector"@.len() == 12 && "tag name"@.len() == 8 && "xpath"@.len() == 5);
    assert("link text"@.len() == 9 && "partial link text"@.len() == 17 && "css"@.len() == 3);
}

/// The text of a request stands unchanged in the selector that the plugin gets: it is the whole
/// selector for the strategies that name elements, and what stands in quotation marks for those
/// that name links.
pub proof fn law_searched_text_is_kept(body: JsonView, strategy: Seq<char>, text: Seq<char>)
    requires
        body.get("using"@) == Some(JsonView::Str(strategy)),
        body.get("value"@) == Some(JsonView::Str(text)),
        takes_whole(strategy) || takes_link(strategy),
    ensures
        ({
            let found = locator(body);
            let selector = found->Ok_0.1;
            &&& found is Ok
            &&& takes_whole(strategy) ==> selector == text
            &&& takes_link(strategy) ==> exists|i: int|
                {
                    &&& 0 < i
                    &&& i + text.len() < selector.len()
                    &&& #[trigger] selector.subrange(i, i + text.len()) == text
                    &&& selector[i - 1] == '\''
                    &&& selector[i + text.len()] == '\''
                }
        }),
{
    lemma_strategies();
    reveal_strlit("//a[normalize-space()='");
    reveal_strlit("//a[contains(.,'");
    reveal_strlit("']");
    reveal_strlit("')]");
    let selector = locator(body)->Ok_0.1;
    if takes_link(strategy) {
        let lead = if strategy == "link text"@ {
            "//a[normalize-space()='"@
        } else {
            "//a[contains(.,'"@
        };
        let i = lead.len() as int;
        assert(lead.last() == '\'');
        assert(selector.subrange(i, i + text.len()) =~= text);
    }
}

/// Requests with the same strategy and different texts get selectors that differ in the text and
/// in nothing else.
pub proof fn law_selectors_differ_in_the_text(strategy: Seq<char>, a: Seq<char>, b: Seq<char>)
    requires
        takes_whole(strategy) || takes_link(strategy),
    ensures
        translated(strategy, a) is Some,
        translated(strategy, b) is Some,
        translated(strategy, a)->Some_0.0 == translated(strategy, b)->Some_0.0,
        agree_but_for(
            1,
            translated(strategy, a)->Some_0.1,
            a,
            translated(strategy, b)->Some_0.1,
            b,
        ),
        a != b ==> translated(strategy, a)->Some_0.1 != translated(strategy, b)->Some_0.1,
{
    lemma_strategies();
    let none: Seq<char> = seq![];
    if takes_whole(strategy) {
        assert(none + a + none =~= a);
        assert(none + b + none =~= b);
        lemma_selectors_differ(none, none, a, b);
    } else if strategy == "link text"@ {
        lemma_selectors_differ("//a[normalize-space()='"@, "']"@, a, b);
    } else {
        lemma_selectors_differ("//a[contains(.,'"@, "')]"@, a, b);
    }
}

proof fn lemma_selectors_differ(
    lead: Seq<char>,
    tail: Seq<char>,
    a: Seq<char>,
    b: Seq<char>,
)
    ensures
        agree_but_for(1, lead + a + tail, a, lead + b + tail, b),
        a != b ==> lead + a + tail != lead + b + tail,
{
    let fa = lead + a + tail;
    let fb = lead + b + tail;
    lemma_once(lead, tail, fa, a, fb, b);
    if fa == fb {
        assert(fa.len() == lead.len() + a.len() + tail.len());
        assert(fb.len() == lead.len() + b.len() + tail.len());
        assert(fa.subrange(lead.len() as int, (lead.len() + a.len()) as int) =~= a);
        assert(fb.subrange(lead.len() as int, (lead.len() + b.len()) as int) =~= b);
    }
}

/// Elements that are named by a css selector or by their tag are looked for as css, all others as
/// xpath, and every other strategy is refused with its name in the message.
pub proof fn law_strategies_of_the_plugin(body: JsonView, strategy: Seq<char>, text: Seq<char>)
    requires
        body.get("using"@) == Some(JsonView::Str(strategy)),
        body.get("value"@) == Some(JsonView::Str(text)),
    ensures
        locator(body) is Ok <==> takes_whole(strategy) || takes_link(strategy),
        locator(body) matches Ok(l) ==> {
            l.0 == if strategy == "css selector"@ || strategy == "tag name"@ {
                "css"@
            } else {
                "xpath"@
            }
        },
        locator(body) matches Err(e) ==> e.status == 400 && e.error == "invalid argument"@
            && e.message == "Unsupported locator strategy: "@ + strategy,
{
    lemma_strategies();
}

/// Whether a command is a search.
pub open spec fn is_search(kind: Kind) -> bool {
    match kind {
        Kind::FindElement
        | Kind::FindElements
        | Kind::FindInShadow
        | Kind::FindAllInShadow
        | Kind::FindElementFromElement
        | Kind::FindElementsFromElement => true,
        _ => false,
    }
}

/// Whether what a search starts from is known.
pub open spec fn can_start(s: SessionView, r: RequestView) -> bool {
    match r.kind {
        Kind::FindInShadow | Kind::FindAllInShadow => s.shadows.contains_key(r.target),
        Kind::FindElementFromElement
        | Kind::FindElementsFromElement => s.elements.contains_key(r.target),
        _ => true,
    }
}

/// Every search posts the plugin's strategy and the selector of its locator, and with them where
/// it starts: the host of the shadow root, or the parent.
pub proof fn law_search_posts_its_locator(s: SessionView, r: RequestView)
    requires
        is_search(r.kind),
        can_start(s, r),
        locator(r.body) is Ok,
    ensures
        first_step(s, r) matches StepView::Call { body, .. } && {
            let l = locator(r.body)->Ok_0;
            &&& body.get("using"@) == Some(JsonView::Str(l.0))
            &&& body.get("value"@) == Some(JsonView::Str(l.1))
            &&& r.kind == Kind::FindInShadow || r.kind == Kind::FindAllInShadow ==> {
                let h = s.shadows[r.target];
                &&& body.get("host_selector"@) == Some(JsonView::Str(h.host_selector))
                &&& body.get("host_index"@) == Some(JsonView::Unsigned(h.host_index as u64))
                &&& body.get("host_using"@) == Some(JsonView::Str(h.host_using))
            }
            &&& r.kind == Kind::FindElementFromElement || r.kind == Kind::FindElementsFromElement
                ==> {
                let p = s.elements[r.target];
                &&& body.get("parent_selector"@) == Some(JsonView::Str(p.selector))
                &&& body.get("parent_index"@) == Some(JsonView::Unsigned(p.index as u64))
                &&& body.get("parent_using"@) == Some(JsonView::Str(p.using))
            }
        },
{
    let l = locator(r.body)->Ok_0;
    let using = JsonView::Str(l.0);
    let value = JsonView::Str(l.1);
    reveal_strlit("using");
    reveal_strlit("value");
    assert("using"@[0] == 'u' && "value"@[0] == 'v');
    if r.kind == Kind::FindElement || r.kind == Kind::FindElements {
        lemma_one_member("using"@, using, "using"@);
        lemma_one_member("using"@, using, "value"@);
        lemma_with_member(object("using"@, using), "value"@, value, "using"@);
        lemma_with_member(object("using"@, using), "value"@, value, "value"@);
    } else if r.kind == Kind::FindInShadow || r.kind == Kind::FindAllInShadow {
        let h = s.shadows[r.target];
        lemma_five_members(
            "host_selector"@,
            JsonView::Str(h.host_selector),
            "host_index"@,
            JsonView::Unsigned(h.host_index as u64),
            "host_using"@,
            JsonView::Str(h.host_using),
            using,
            value,
        );
        reveal_strlit("host_selector");
        reveal_strlit("host_index");
        reveal_strlit("host_using");
        assert("host_selector"@.len() == 13 && "host_index"@[5] == 'i' && "host_using"@[5] == 'u');
        assert("host_index"@.len() == 10 && "host_using"@.len() == 10);
        assert("using"@.len() == 5 && "value"@.len() == 5);
    } else {
        let p = s.elements[r.target];
        lemma_five_members(
            "parent_selector"@,
            JsonView::Str(p.selector),
            "parent_index"@,
            JsonView::Unsigned(p.index as u64),
            "parent_using"@,
            JsonView::Str(p.using),
            using,
            value,
        );
        reveal_strlit("parent_selector");
        reveal_strlit("parent_index");
        reveal_strlit("parent_using");
        assert("parent_selector"@.len() == 15);
        assert("parent_index"@[7] == 'i' && "parent_using"@[7] == 'u');
        assert("parent_index"@.len() == 12 && "parent_using"@.len() == 12);
        assert("using"@.len() == 5 && "value"@.len() == 5);
    }
}

/// A search for one element that finds none will say what it looked for, and where; a search for
/// all elements will list what it finds.
pub proof fn law_search_remembers_what_it_looks_for(s: SessionView, r: RequestView)
    requires
        is_search(r.kind),
        can_start(s, r),
        locator(r.body) is Ok,
    ensures
        first_step(s, r) matches StepView::Call { url, then, .. } && {
            let l = locator(r.body)->Ok_0;
            let sought = l.0 + ": "@ + l.1;
            &&& url == s.plugin_url + (match r.kind {
                Kind::FindElement | Kind::FindElements => "/element/find"@,
                Kind::FindInShadow | Kind::FindAllInShadow => "/shadow/find"@,
                _ => "/element/find-from"@,
            })
            &&& match r.kind {
                Kind::FindElement => then == (ThenView::First {
                    message: "No element found with "@ + sought,
                }),
                Kind::FindInShadow => then == (ThenView::First {
                    message: "No element found in shadow with "@ + sought,
                }),
                Kind::FindElementFromElement => then == (ThenView::First {
                    message: "No child element found with "@ + sought,
                }),
                _ => then == ThenView::All,
            }
        },
{
    let l = locator(r.body)->Ok_0;
    lemma_sought("No element found with "@, l.0, l.1);
    lemma_sought("No element found in shadow with "@, l.0, l.1);
    lemma_sought("No child element found with "@, l.0, l.1);
}

proof fn lemma_sought(lead: Seq<char>, a: Seq<char>, b: Seq<char>)
    ensures
        lead + a + ": "@ + b == lead + (a + ": "@ + b),
{
    assert(lead + a + ": "@ + b =~= lead + (a + ": "@ + b));
}

/// A search below a shadow root or an element that the session does not know is refused, with the
/// name; one whose locator is no good is refused for that.
pub proof fn law_search_without_a_start_is_refused(s: SessionView, r: RequestView)
    requires
        is_search(r.kind),
    ensures
        !can_start(s, r) && (r.kind == Kind::FindInShadow || r.kind == Kind::FindAllInShadow)
            ==> reports(
            first_step(s, r),
            404,
            "no such shadow root"@,
            "Shadow root "@ + r.target + " not found"@,
        ),
        !can_start(s, r) && (r.kind == Kind::FindElementFromElement || r.kind
            == Kind::FindElementsFromElement) ==> reports(
            first_step(s, r),
            404,
            "no such element"@,
            "Element "@ + r.target + " not found"@,
        ),
        locator(r.body) matches Err(e) ==> can_start(s, r) ==> reports(
            first_step(s, r),
            e.status,
            e.error,
            e.message,
        ),
{
}

/// A search without a strategy or without a text is refused as malformed, for the strategy first.
pub proof fn law_incomplete_locators_are_refused(body: JsonView)
    ensures
        (body.get("using"@) matches Some(u) ==> u !is Str) ==> (locator(body) matches Err(e)
            && e.status == 400 && e.error == "invalid argument"@ && e.message
            == "Missing 'using'"@),
        (body.get("using"@) matches Some(JsonView::Str(_))) && (body.get("value"@) matches Some(v)
            ==> v !is Str) ==> (locator(body) matches Err(e) && e.status == 400 && e.error
            == "invalid argument"@ && e.message == "Missing 'value'"@),
{
}

proof fn lemma_five_members(
    k1: Seq<char>,
    v1: JsonView,
    k2: Seq<char>,
    v2: JsonView,
    k3: Seq<char>,
    v3: JsonView,
    using: JsonView,
    value: JsonView,
)
    ensures
        ({
            let all = object(k1, v1).with(k2, v2).with(k3, v3).with("using"@, using).with(
                "value"@,
                value,
            );
            &&& all.get(k1) == Some(v1)
            &&& k2 != k1 ==> all.get(k2) == Some(v2)
            &&& k3 != k1 && k3 != k2 ==> all.get(k3) == Some(v3)
            &&& "using"@ != k1 && "using"@ != k2 && "using"@ != k3 ==> all.get("using"@) == Some(
                using,
            )
            &&& "value"@ != k1 && "value"@ != k2 && "value"@ != k3 && "value"@ != "using"@
                ==> all.get("value"@) == Some(value)
        }),
{
    let one = object(k1, v1);
    let two = one.with(k2, v2);
    let three = two.with(k3, v3);
    let four = three.with("using"@, using);
    assert forall|key: Seq<char>| #[trigger] four.with("value"@, value).get(key) == (if key == k1 {
        Some(v1)
    } else if key == k2 {
        Some(v2)
    } else if key == k3 {
        Some(v3)
    } else if key == "using"@ {
        Some(using)
    } else if key == "value"@ {
        Some(value)
    } else {
        None
    }) by {
        lemma_one_member(k1, v1, key);
        lemma_with_member(one, k2, v2, key);
        lemma_with_member(two, k3, v3, key);
        lemma_with_member(three, "using"@, using, key);
        lemma_with_member(four, "value"@, value, key);
    }
}

} // verus!
