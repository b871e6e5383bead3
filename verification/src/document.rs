//! JSON values as documents.

use crate::outside::{json_quoted, quote_json};
use crate::text::{decimal, decimal_text, integer_text};
use crate::value::{array_value, members, object_value, values, Json, JsonView};
use vstd::prelude::*;

verus! {

broadcast use {array_value, object_value};

/// The compact JSON document of a value: no white space, members in their order.
pub open spec fn document(v: JsonView) -> Seq<char>
    decreases v, 0nat,
{
    match v {
        JsonView::Null => "null"@,
        JsonView::Bool(b) => if b {
            "true"@
        } else {
            "false"@
        },
        JsonView::Unsigned(n) => decimal_text(n as nat),
        JsonView::Negative(n) => integer_text(n as int),
        JsonView::Float { json, .. } => json,
        JsonView::Str(s) => json_quoted(s),
        JsonView::Array(items) => "["@ + item_documents(items, items.len()) + "]"@,
        JsonView::Object(list) => "{"@ + member_documents(list, list.len()) + "}"@,
    }
}

/// The documents of the first `n` items of a list, with commas between them.
pub open spec fn item_documents(items: Seq<JsonView>, n: nat) -> Seq<char>
    decreases items, n,
{
    if n == 0 || n > items.len() {
        seq![]
    } else if n == 1 {
        document(items[0])
    } else {
        item_documents(items, (n - 1) as nat) + ","@ + document(items[n - 1])
    }
}

/// The documents of the first `n` members of a list, with commas between them.
pub open spec fn member_documents(list: Seq<(Seq<char>, JsonView)>, n: nat) -> Seq<char>
    decreases list, n,
{
    if n == 0 || n > list.len() {
        seq![]
    } else {
        let member = json_quoted(list[n - 1].0) + ":"@ + document(list[n - 1].1);
        if n == 1 {
            member
        } else {
            member_documents(list, (n - 1) as nat) + ","@ + member
        }
    }
}

/// Writes a value as a compact JSON document.
pub fn write_document(j: &Json) -> (r: String)
    ensures
        r@ == document(j@),
    decreases j,
{
    match j {
        Json::Null => "null".to_owned(),
        Json::Bool(b) => if *b {
            "true".to_owned()
        } else {
            "false".to_owned()
        },
        Json::Unsigned(n) => decimal(*n),
        Json::Negative(n) => write_integer(*n),
        Json::Float { json, .. } => json.clone(),
        Json::Str(s) => quote_json(s.as_str()),
        Json::Array(items) => write_array(items),
        Json::Object(list) => {
            let mut out = "{".to_owned();
            let mut i: usize = 0;
            while i < list.len()
                invariant
                    *j == Json::Object(*list),
                    i <= list@.len(),
                    out@ == "{"@ + member_documents(members(list@), i as nat),
                decreases list@.len() - i,
            {
                assert(decreases_to!(j->Object_0 => j->Object_0[i as int]));
                if i > 0 {
                    out.append(",");
                }
                out.append(quote_json(list[i].0.as_str()).as_str());
                out.append(":");
                out.append(write_document(&list[i].1).as_str());
                i = i + 1;
                assert(out@ =~= "{"@ + member_documents(members(list@), i as nat));
            }
            out.append("}");
            out
        },
    }
}

fn write_integer(n: i64) -> (r: String)
    ensures
        r@ == integer_text(n as int),
{
    if n < 0 {
        let mut out = "-".to_owned();
        let magnitude: u64 = if n == i64::MIN {
            9223372036854775808
        } else {
            (-n) as u64
        };
        out.append(decimal(magnitude).as_str());
        out
    } else {
        decimal(n as u64)
    }
}

/// Writes a list of values as a compact JSON document.
pub fn write_array(items: &Vec<Json>) -> (r: String)
    ensures
        r@ == document(JsonView::Array(values(items@))),
    decreases items,
{
    let mut out = "[".to_owned();
    let mut i: usize = 0;
    while i < items.len()
        invariant
            i <= items@.len(),
            out@ == "["@ + item_documents(values(items@), i as nat),
        decreases items@.len() - i,
    {
        assert(decreases_to!(*items => items[i as int]));
        if i > 0 {
            out.append(",");
        }
        out.append(write_document(&items[i]).as_str());
        i = i + 1;
        assert(out@ =~= "["@ + item_documents(values(items@), i as nat));
    }
    out.append("]");
    out
}

} // verus!
