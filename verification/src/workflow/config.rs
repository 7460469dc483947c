//! Typed reads of node configuration values.
use vstd::prelude::*;
use crate::text::{
    ascii_lower, ascii_lowercase, chars_eq_text, is_blank, is_blank_text, parse_i64_chars,
    parse_i64_spec, text_chars, trim, trim_text,
};
use crate::workflow::model::{config_get, config_lookup, ConfigValue, WorkflowNodeSpec};

verus! {

/// A configured text value that is not blank, as the text itself.
pub open spec fn config_text(config: Option<ConfigValue>, key: Seq<char>) -> Option<Seq<char>> {
    match config_get(config, key) {
        Some(ConfigValue::Text(s)) => if is_blank(s@) {
            None
        } else {
            Some(s@)
        },
        _ => None,
    }
}

/// Whether the configured value is an array with at least one item.
pub open spec fn config_nonempty_array(config: Option<ConfigValue>, key: Seq<char>) -> bool {
    match config_get(config, key) {
        Some(ConfigValue::Array(items)) => items@.len() > 0,
        _ => false,
    }
}

/// A configured integer: an `i64` number, or a text holding one once trimmed.
pub open spec fn config_i64(config: Option<ConfigValue>, key: Seq<char>) -> Option<i64> {
    match config_get(config, key) {
        Some(ConfigValue::Integer(i)) => Some(i),
        Some(ConfigValue::Text(s)) => parse_i64_spec(trim(s@)),
        _ => None,
    }
}

/// The truth value a lower-cased word stands for.
pub open spec fn bool_word(w: Seq<char>) -> Option<bool> {
    if w == "true"@ || w == "yes"@ || w == "1"@ || w == "success"@ || w == "succeeded"@ {
        Some(true)
    } else if w == "false"@ || w == "no"@ || w == "0"@ || w == "failure"@ || w == "failed"@ {
        Some(false)
    } else {
        None
    }
}

/// A configured flag: a JSON boolean, or a text naming one once trimmed and
/// ASCII lower-cased.
pub open spec fn config_bool(config: Option<ConfigValue>, key: Seq<char>) -> Option<bool> {
    match config_get(config, key) {
        Some(ConfigValue::Bool(b)) => Some(b),
        Some(ConfigValue::Text(s)) => bool_word(ascii_lower(trim(s@))),
        _ => None,
    }
}

/// Reads a non-blank text value from a node configuration.
pub fn workflow_config_string<'a>(node: &'a WorkflowNodeSpec, key: &str) -> (res: Option<&'a str>)
    ensures
        match res {
            Some(s) => config_text(node.config, key@) == Some(s@),
            None => config_text(node.config, key@).is_none(),
        },
{
    match config_lookup(&node.config, key) {
        Some(ConfigValue::Text(s)) => {
            if is_blank_text(s.as_str()) {
                None
            } else {
                Some(s.as_str())
            }
        },
        _ => None,
    }
}

/// Whether a node configuration holds a non-empty array under `key`.
pub fn workflow_config_nonempty_array(node: &WorkflowNodeSpec, key: &str) -> (res: bool)
    ensures
        res == config_nonempty_array(node.config, key@),
{
    match config_lookup(&node.config, key) {
        Some(ConfigValue::Array(items)) => items.len() > 0,
        _ => false,
    }
}

/// Reads an integer from a node configuration.
pub fn workflow_config_i64(node: &WorkflowNodeSpec, key: &str) -> (res: Option<i64>)
    ensures
        res == config_i64(node.config, key@),
{
    match config_lookup(&node.config, key) {
        Some(ConfigValue::Integer(i)) => Some(*i),
        Some(ConfigValue::Text(s)) => {
            let trimmed = trim_text(s.as_str());
            let chars = text_chars(trimmed);
            parse_i64_chars(&chars)
        },
        _ => None,
    }
}

/// Reads a flag from a node configuration.
pub fn workflow_config_bool(node: &WorkflowNodeSpec, key: &str) -> (res: Option<bool>)
    ensures
        res == config_bool(node.config, key@),
{
    match config_lookup(&node.config, key) {
        Some(ConfigValue::Bool(b)) => Some(*b),
        Some(ConfigValue::Text(s)) => {
            let trimmed = trim_text(s.as_str());
            let chars = text_chars(trimmed);
            let w = ascii_lowercase(&chars);
            if chars_eq_text(&w, "true") || chars_eq_text(&w, "yes") || chars_eq_text(&w, "1")
                || chars_eq_text(&w, "success") || chars_eq_text(&w, "succeeded") {
                Some(true)
            } else if chars_eq_text(&w, "false") || chars_eq_text(&w, "no") || chars_eq_text(
                &w,
                "0",
            ) || chars_eq_text(&w, "failure") || chars_eq_text(&w, "failed") {
                Some(false)
            } else {
                None
            }
        },
        _ => None,
    }
}

/// What a configured flag reads as: a JSON boolean is itself; a text, trimmed
/// and ASCII lower-cased, reads `true` for `true`, `yes`, `1`, `success` and
/// `succeeded`, `false` for `false`, `no`, `0`, `failure` and `failed`, and
/// nothing otherwise; every other value, or no value, reads as nothing.
pub proof fn lemma_config_bool_words(config: Option<ConfigValue>, key: Seq<char>)
    ensures
        ({
            let r = config_bool(config, key);
            match config_get(config, key) {
                Some(ConfigValue::Bool(b)) => r == Some(b),
                Some(ConfigValue::Text(s)) => {
                    let w = ascii_lower(trim(s@));
                    &&& (w == "true"@ || w == "yes"@ || w == "1"@ || w == "success"@ || w == "succeeded"@)
                        ==> r == Some(true)
                    &&& (w == "false"@ || w == "no"@ || w == "0"@ || w == "failure"@ || w == "failed"@)
                        ==> r == Some(false)
                    &&& r is Some ==> (w == "true"@ || w == "yes"@ || w == "1"@ || w == "success"@ || w
                        == "succeeded"@ || w == "false"@ || w == "no"@ || w == "0"@ || w == "failure"@ || w
                        == "failed"@)
                },
                _ => r is None,
            }
        }),
{
    reveal_strlit("true");
    reveal_strlit("yes");
    reveal_strlit("1");
    reveal_strlit("success");
    reveal_strlit("succeeded");
    reveal_strlit("false");
    reveal_strlit("no");
    reveal_strlit("0");
    reveal_strlit("failure");
    reveal_strlit("failed");
    assert("1"@ != "0"@) by {
        assert("1"@[0] != "0"@[0]);
    }
    assert("success"@ != "failure"@) by {
        assert("success"@[0] != "failure"@[0]);
    }
    match config_get(config, key) {
        Some(ConfigValue::Text(s)) => {
            let w = ascii_lower(trim(s@));
            if w == "false"@ || w == "no"@ || w == "0"@ || w == "failure"@ || w == "failed"@ {
                assert("true"@.len() == 4);
                assert("yes"@.len() == 3);
                assert("1"@.len() == 1);
                assert("success"@.len() == 7);
                assert("succeeded"@.len() == 9);
                assert(w != "true"@);
                assert(w != "yes"@);
                assert(w != "1"@);
                assert(w != "success"@);
                assert(w != "succeeded"@);
            }
        },
        _ => {},
    }
}

/// What a configured integer reads as: an `i64` number is itself, a text is the
/// integer its trimmed form spells, and every other value (a number beyond
/// `i64`, a fraction, a flag, an array, an object), or no value, reads as nothing.
pub proof fn lemma_config_i64_values(config: Option<ConfigValue>, key: Seq<char>)
    ensures
        match config_get(config, key) {
            Some(ConfigValue::Integer(i)) => config_i64(config, key) == Some(i),
            Some(ConfigValue::Text(s)) => config_i64(config, key) == parse_i64_spec(trim(s@)),
            _ => config_i64(config, key) is None,
        },
{
}

/// A configured text reads as itself exactly when it is not blank; blank texts
/// and values of every other kind read as nothing.
pub proof fn lemma_config_text_values(config: Option<ConfigValue>, key: Seq<char>)
    ensures
        match config_get(config, key) {
            Some(ConfigValue::Text(s)) => config_text(config, key) == (if trim(s@).len() > 0 {
                Some(s@)
            } else {
                None
            }),
            _ => config_text(config, key) is None,
        },
{
}

} // verus!
