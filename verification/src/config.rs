//! Settings from the environment: what their texts stand for.

use vstd::prelude::*;
use crate::lhdn::LhdnEnv;
use crate::text::{ascii_lowered, debug_quoted, debug_text, trimmed};

verus! {

/// A setting in the form in which it is read: without white space around it, in
/// lower case.
pub open spec fn plain(text: Seq<char>) -> Seq<char> {
    ascii_lowered(trimmed(text))
}

/// Whether the setting switches something on.
pub open spec fn is_on(text: Seq<char>) -> bool {
    plain(text) == "1"@ || plain(text) == "true"@ || plain(text) == "yes"@
}

/// Reads a switch: on for `1`, `true` and `yes`, off for anything else or where
/// it is not set.
pub fn env_bool(value: Option<&str>) -> (on: bool)
    ensures
        on == (value matches Some(text) && is_on(text@)),
{
    match value {
        Some(text) => {
            let lower = text.trim().to_ascii_lowercase();
            *lower.as_str() == *"1" || *lower.as_str() == *"true" || *lower.as_str() == *"yes"
        },
        None => false,
    }
}

/// The setting's value, or that it must be set.
pub fn env_required(name: &str, value: Option<String>) -> (setting: Result<String, String>)
    ensures
        match value {
            Some(text) => setting == Ok::<String, String>(text),
            None => setting matches Err(why) && why@ == name@ + " must be set"@,
        },
{
    match value {
        Some(text) => Ok(text),
        None => Err(name.to_owned().concat(" must be set")),
    }
}

/// Reads which LHDN environment to talk to.
pub fn parse_lhdn_env(s: &str) -> (env: Result<LhdnEnv, String>)
    ensures
        match env {
            Ok(e) => plain(s@) == e.name_text(),
            Err(why) => {
                &&& plain(s@) != LhdnEnv::Preprod.name_text()
                &&& plain(s@) != LhdnEnv::Prod.name_text()
                &&& why@ == "LHDN_ENV must be 'preprod' or 'prod', got "@ + debug_text(plain(s@))
            },
        },
{
    let plain = s.trim().to_ascii_lowercase();
    if *plain.as_str() == *"preprod" {
        Ok(LhdnEnv::Preprod)
    } else if *plain.as_str() == *"prod" {
        Ok(LhdnEnv::Prod)
    } else {
        Err(
            "LHDN_ENV must be 'preprod' or 'prod', got ".to_owned().concat(&debug_quoted(&plain)),
        )
    }
}

/// The address to listen on where none is set.
pub fn bind_addr(value: Option<String>) -> (addr: String)
    ensures
        addr@ == (match value {
            Some(text) => text@,
            None => "127.0.0.1:8080"@,
        }),
{
    match value {
        Some(text) => text,
        None => "127.0.0.1:8080".to_owned(),
    }
}

} // verus!
