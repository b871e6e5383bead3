//! Locators: how a request says which elements it looks for.

use crate::driver::error::{argument_error, W3cError, W3cErrorView};
use crate::text::text_eq;
use crate::value::{Json, JsonView};
use vstd::prelude::*;

verus! {

/// The strategy and the selector that the plugin looks with, for the strategy and the value of
/// a request; `None` for a strategy that is not supported.
pub open spec fn translated(strategy: Seq<char>, value: Seq<char>) -> Option<
    (Seq<char>, Seq<char>),
> {
    if strategy == "css selector"@ || strategy == "tag name"@ {
        Some(("css"@, value))
    } else if strategy == "xpath"@ {
        Some(("xpath"@, value))
    } else if strategy == "link text"@ {
        Some(("xpath"@, "//a[normalize-space()='"@ + value + "']"@))
    } else if strategy == "partial link text"@ {
        Some(("xpath"@, "//a[contains(.,'"@ + value + "')]"@))
    } else {
        None
    }
}

/// The locator of a request, or the error that it is answered with.
pub open spec fn locator(body: JsonView) -> Result<(Seq<char>, Seq<char>), W3cErrorView> {
    match body.get_str("using"@) {
        None => Err(argument_error("Missing 'using'"@)),
        Some(strategy) => match body.get_str("value"@) {
            None => Err(argument_error("Missing 'value'"@)),
            Some(value) => match translated(strategy, value) {
                None => Err(argument_error("Unsupported locator strategy: "@ + strategy)),
                Some(l) => Ok(l),
            },
        },
    }
}

/// Reads the locator of a request.
pub fn extract_locator(body: &Json) -> (r: Result<(String, String), W3cError>)
    ensures
        match r {
            Ok(l) => locator(body@) == Ok::<(Seq<char>, Seq<char>), W3cErrorView>((l.0@, l.1@)),
            Err(e) => locator(body@) == Err::<(Seq<char>, Seq<char>), W3cErrorView>(e@),
        },
{
    let strategy = match body.get_str("using") {
        Some(s) => s,
        None => return Err(W3cError::bad_request("Missing 'using'".to_owned())),
    };
    let value = match body.get_str("value") {
        Some(s) => s,
        None => return Err(W3cError::bad_request("Missing 'value'".to_owned())),
    };
    if text_eq(strategy, "css selector") || text_eq(strategy, "tag name") {
        Ok(("css".to_owned(), value.to_owned()))
    } else if text_eq(strategy, "xpath") {
        Ok(("xpath".to_owned(), value.to_owned()))
    } else if text_eq(strategy, "link text") {
        let mut path = "//a[normalize-space()='".to_owned();
        path.append(value);
        path.append("']");
        Ok(("xpath".to_owned(), path))
    } else if text_eq(strategy, "partial link text") {
        let mut path = "//a[contains(.,'".to_owned();
        path.append(value);
        path.append("')]");
        Ok(("xpath".to_owned(), path))
    } else {
        let mut message = "Unsupported locator strategy: ".to_owned();
        message.append(strategy);
        Err(W3cError::bad_request(message))
    }
}

} // verus!
