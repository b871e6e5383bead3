use tauri_webdriver::document::{write_array, write_document};
use tauri_webdriver::json::{empty_array, object_0, object_1, text_value, with_member};
use tauri_webdriver::text::{
    contains, decimal, eq_ignore_ascii_case, parse_u16, replace_all, split_filled_lines,
    strip_prefix, to_ascii_lower, trim,
};
use tauri_webdriver::value::Json;

fn convert(v: &serde_json::Value) -> Json {
    match v {
        serde_json::Value::Null => Json::Null,
        serde_json::Value::Bool(b) => Json::Bool(*b),
        serde_json::Value::Number(n) => match (n.as_u64(), n.as_i64()) {
            (Some(u), _) => Json::Unsigned(u),
            (None, Some(i)) => Json::Negative(i),
            _ => Json::Float {
                json: n.to_string(),
                plain: n.as_f64().unwrap_or(0.0).to_string(),
            },
        },
        serde_json::Value::String(s) => Json::Str(s.clone()),
        serde_json::Value::Array(a) => Json::Array(a.iter().map(convert).collect()),
        serde_json::Value::Object(m) => {
            Json::Object(m.iter().map(|(k, v)| (k.clone(), convert(v))).collect())
        }
    }
}

#[test]
fn documents_are_those_of_serde_json() {
    let every: String = (0..0x250u32).filter_map(char::from_u32).collect();
    let texts = vec![
        r#"null"#.to_owned(),
        r#"[true,false,null,0,18446744073709551615,-1,-9223372036854775808]"#.to_owned(),
        r#"[1.5,-0.0,1e300,1e-7,123456789012345678901234567890]"#.to_owned(),
        r#"{"b":{"a":[]},"a":{},"":[[],[[]]]}"#.to_owned(),
        serde_json::to_string(&every).unwrap(),
        serde_json::to_string("\u{2028}\u{1f600}\u{7f}").unwrap(),
    ];
    for t in texts {
        let v: serde_json::Value = serde_json::from_str(&t).unwrap();
        assert_eq!(write_document(&convert(&v)), v.to_string());
    }
}

#[test]
fn quoted_text_reads_back() {
    let every: String = (0..0x250u32).filter_map(char::from_u32).collect();
    for s in vec![every.as_str(), "", "\\", "\"", "\\\"", "a\"};b();//", "\u{0}0", "\\u0041"] {
        let quoted = write_document(&text_value(s));
        let back: String = serde_json::from_str(&quoted).unwrap();
        assert_eq!(back, s);
    }
}

#[test]
fn documents_have_no_spaces() {
    let v = with_member(object_1("a", empty_array()), "b", object_0());
    assert_eq!(write_document(&v), r#"{"a":[],"b":{}}"#);
    assert_eq!(write_array(&vec![]), "[]");
    assert_eq!(write_array(&vec![text_value("\u{1}\u{1f}\u{8}\u{c}")]), r#"["\u0001\u001f\b\f"]"#);
}

#[test]
fn members_are_looked_up() {
    let v = Json::Object(vec![
        ("a".to_owned(), Json::Unsigned(1)),
        ("b".to_owned(), text_value("x")),
        ("a".to_owned(), Json::Unsigned(2)),
    ]);
    assert_eq!(v.get_u64("a"), Some(1));
    assert_eq!(v.get_str("b"), Some("x"));
    assert_eq!(v.get_str("a"), None);
    assert!(v.get("c").is_none());
    assert_eq!(v.get_str_or("c", "d"), "d");
    assert_eq!(v.get_u64_or("b", 9), 9);
    assert_eq!(
        write_document(&v.replace("a", Json::Null)),
        r#"{"a":null,"b":"x","a":2}"#
    );
    assert_eq!(write_document(&v.replace("z", Json::Null)), write_document(&v));
    assert_eq!(write_document(&with_member(Json::Null, "a", Json::Null)), "null");
    assert!(v.is_object() && !v.is_null());
    assert!(v.get_array("a").is_none() && v.as_array().is_none());
    assert_eq!(Json::Bool(true).as_bool(), Some(true));
}

#[test]
fn numbers_and_texts() {
    assert_eq!(decimal(0), "0");
    assert_eq!(decimal(u64::MAX), "18446744073709551615");
    for s in vec!["0", "+7", "65535", "65536", "", "+", "-1", "1a", "00012", "99999999999"] {
        assert_eq!(parse_u16(s), s.parse::<u16>().ok());
    }
    for s in vec!["", "  a b ", "\u{3000}x\u{2003}", "\t\r\n", "\u{200b}x"] {
        assert_eq!(trim(s), s.trim());
    }
    assert_eq!(to_ascii_lower("AZ\u{c4}[@"), "az\u{c4}[@");
    assert!(eq_ignore_ascii_case("InPut", "INPUT") && !eq_ignore_ascii_case("inputs", "input"));
    assert!(contains("abc", "") && contains("abc", "bc") && !contains("abc", "ac"));
    assert_eq!(strip_prefix("abc", "ab"), Some("c".to_owned()));
    assert_eq!(strip_prefix("abc", "b"), None);
}

#[test]
fn replacing_and_lines() {
    for (s, p, w) in vec![("aaa", "aa", "b"), ("xaxbx", "x", ""), ("", "x", "y"), ("ab", "b", "bb")]
    {
        assert_eq!(replace_all(s, p, w), s.replace(p, w));
    }
    for s in vec!["", "a", "a\nb", "a\r\n\r\nb\n", "\n\n", "\r", "a\rb\r\n", "\r\r\n"] {
        let expected: Vec<&str> = s.lines().filter(|l| !l.is_empty()).collect();
        assert_eq!(split_filled_lines(s), expected);
    }
}
