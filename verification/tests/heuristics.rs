// Tests with `looks_like` in their name cover guesses that may be wrong. The
// other tests cover guesses that cannot be wrong; each says why.

use httpcli::guess::{maybe_json, maybe_url_encoded};

#[test]
fn empty_string_does_not_look_like_url_encoded() {
    // Empty string is valid URL-encoded body, it's just not practical.
    assert!(!maybe_url_encoded(""));
}

#[test]
fn str_without_eq_sign_does_not_look_like_url_encoded() {
    // Although we usually see the parameters in the form `key=value`, a parameter without
    // equal sign is valid
    assert!(!maybe_url_encoded("a-s.d_f~0+%21"));
}

#[test]
fn str_with_incomplete_byte_is_not_url_encoded() {
    // This violates the URL encoded format, so this guess can't be wrong
    assert!(!maybe_url_encoded("%="));
    assert!(!maybe_url_encoded("%2="));
}

#[test]
fn str_with_reserved_char_is_not_url_encoded() {
    // This one is also in wrong format
    assert!(!maybe_url_encoded("#a="));
    assert!(!maybe_url_encoded("&b="));
    assert!(!maybe_url_encoded("!c="));
    // Space should be encoded to `+` or `%20`, so the space here is clearly invalid
    assert!(!maybe_url_encoded(" hello=world"));
}

#[test]
fn looks_like_url_encoded() {
    assert!(maybe_url_encoded("a-s.d_f~0+%21="));
    assert!(maybe_url_encoded("hello=world"));
}

#[test]
fn str_with_nonobject_at_top_level_does_not_look_like_json() {
    // JSON does actually allow having non-object at top level, but object as top-level value
    // is more common
    assert!(!maybe_json("[1,2,3]"));
    assert!(!maybe_json(r#" "Hello" "#));
    assert!(!maybe_json(r#" 1 "#));
    assert!(!maybe_json(r#" 1.5 "#));
    assert!(!maybe_json(r#" false "#));
    assert!(!maybe_json(r#" null "#));
}

#[test]
fn obj_with_nonterminated_key_is_not_json() {
    // No JSON document ends inside a key, so this guess can't be wrong
    assert!(!maybe_json(r#"{"abcde"#));
    assert!(!maybe_json(r#"{"a:1}"#));
}

#[test]
fn obj_with_nonstring_key_is_not_json() {
    // JSON only has strings for keys
    assert!(!maybe_json(r#"{1:"a"}"#));
    assert!(!maybe_json(r#"{true:"a"}"#));
    assert!(!maybe_json(r#"{null:"a"}"#));
    assert!(!maybe_json(r#"{'single':"a"}"#));
    assert!(!maybe_json(r#"{[1]:"a"}"#));
    assert!(!maybe_json(r#"{1.0:"a"}"#));
}

#[test]
fn obj_having_key_without_colon_after_is_not_json() {
    assert!(!maybe_json(r#"{"a"}"#));
    assert!(!maybe_json(r#"{"a"=1}"#));
    assert!(!maybe_json(r#"{"a"<-1}"#));
}

#[test]
fn empty_object_in_long_str_does_not_look_like_json() {
    // We have wrong guess here, but it should be fine, I have never seen this in practice
    assert!(!maybe_json("                    {}"));
}

#[test]
fn empty_object_in_short_str_is_json() {
    assert!(maybe_json("{}"));
    assert!(maybe_json("     {}"));
    assert!(maybe_json("  {     }"));
    assert!(maybe_json("  {  }  "));
    assert!(maybe_json("{}        "));
}

#[test]
fn looks_like_json() {
    assert!(maybe_json(r#"{"hello":"world"}"#));
    assert!(maybe_json(r#"{"a":{"b":{"c":{"d":"e"}}}}"#));
    // Another wrong guess for our heuristic
    assert!(maybe_json(r#"{"a":"#));
    // Empty string is still a string, so it is valid key
    assert!(maybe_json(r#"{"":0}"#));
}

#[test]
fn spaces_in_json_does_not_matter() {
    assert!(maybe_json(
        r#"
        {
            "hello":        "world"
        }
            "#
    ));
    assert!(maybe_json(r#"  {"":  "#));
}
