//! Settings from the environment.

use einvoice_bridge::config::{bind_addr, env_bool, env_required, parse_lhdn_env};
use einvoice_bridge::lhdn::LhdnEnv;

#[test]
fn switches_are_on_for_three_words() {
    for text in ["1", "true", "yes", " TRUE ", "Yes\n"] {
        assert!(env_bool(Some(text)), "{text:?}");
    }
    for text in ["0", "on", "", "truee", "y es"] {
        assert!(!env_bool(Some(text)), "{text:?}");
    }
    assert!(!env_bool(None));
}

#[test]
fn environments_are_read() {
    assert_eq!(parse_lhdn_env("preprod"), Ok(LhdnEnv::Preprod));
    assert_eq!(parse_lhdn_env(" PROD "), Ok(LhdnEnv::Prod));
    assert_eq!(
        parse_lhdn_env(" Sand\"box "),
        Err("LHDN_ENV must be 'preprod' or 'prod', got \"sand\\\"box\"".to_string())
    );
}

#[test]
fn required_settings_must_be_set() {
    assert_eq!(env_required("LHDN_TIN", Some("C1".into())), Ok("C1".to_string()));
    assert_eq!(env_required("LHDN_TIN", None), Err("LHDN_TIN must be set".to_string()));
}

#[test]
fn the_default_address_is_local() {
    assert_eq!(bind_addr(None), "127.0.0.1:8080");
    assert_eq!(bind_addr(Some("0.0.0.0:80".into())), "0.0.0.0:80");
}
