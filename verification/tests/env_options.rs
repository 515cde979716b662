use htmx_ssr::{EnvVarValue, ServerOptions, ServerOptionsFromEnvError};

#[test]
fn env_unset_gives_no_base_url() {
    let options = ServerOptions::from_env_value(EnvVarValue::NotPresent).unwrap();
    assert!(options.base_url.is_none());
}

#[test]
fn env_empty_gives_no_base_url() {
    let options = ServerOptions::from_env_value(EnvVarValue::Present(String::new())).unwrap();
    assert!(options.base_url.is_none());
}

#[test]
fn env_valid_url_is_parsed() {
    let options =
        ServerOptions::from_env_value(EnvVarValue::Present("http://example.com".to_string()))
            .unwrap();
    let url = options.base_url.expect("base URL should be set");
    // the `http` crate coerces an absent path to `/` in the canonical text
    assert_eq!(url.as_str(), "http://example.com/");
}

#[test]
fn env_invalid_url_is_a_structured_error() {
    let r = ServerOptions::from_env_value(EnvVarValue::Present("not a url".to_string()));
    match r {
        Err(ServerOptionsFromEnvError::BaseUrl { name, url, err }) => {
            assert_eq!(name, "HTMX_SSR_BASE_URL");
            assert_eq!(url, "not a url");
            assert_eq!(err, "invalid uri character");
        }
        _ => panic!("expected a BaseUrl error"),
    }
}

#[test]
fn env_not_unicode_is_a_structured_error() {
    let r = ServerOptions::from_env_value(EnvVarValue::NotUnicode);
    match r {
        Err(ServerOptionsFromEnvError::NotUnicode { name }) => {
            assert_eq!(name, "HTMX_SSR_BASE_URL");
        }
        _ => panic!("expected a NotUnicode error"),
    }
}

#[test]
fn env_resolution_is_idempotent_on_success() {
    let a = ServerOptions::from_env_value(EnvVarValue::Present(
        "https://app.example.com".to_string(),
    ))
    .unwrap();
    let b = ServerOptions::from_env_value(EnvVarValue::Present(
        "https://app.example.com".to_string(),
    ))
    .unwrap();
    assert_eq!(
        a.base_url.unwrap().as_str(),
        b.base_url.unwrap().as_str()
    );
}

#[test]
fn env_resolution_is_idempotent_on_failure() {
    let a = ServerOptions::from_env_value(EnvVarValue::Present("not a url".to_string()));
    let b = ServerOptions::from_env_value(EnvVarValue::Present("not a url".to_string()));
    assert_eq!(a.unwrap_err().message(), b.unwrap_err().message());
}

#[test]
fn env_var_keeps_a_nonempty_value() {
    let r = ServerOptions::env_var("SOME_VAR", EnvVarValue::Present("value".to_string()));
    assert_eq!(r.unwrap(), Some("value".to_string()));
}

#[test]
fn env_var_treats_empty_as_unset() {
    let r = ServerOptions::env_var("SOME_VAR", EnvVarValue::Present(String::new()));
    assert_eq!(r.unwrap(), None);
}

#[test]
fn env_var_reports_the_failing_variable() {
    let r = ServerOptions::env_var("SOME_VAR", EnvVarValue::NotUnicode);
    match r {
        Err(ServerOptionsFromEnvError::NotUnicode { name }) => assert_eq!(name, "SOME_VAR"),
        _ => panic!("expected a NotUnicode error"),
    }
}

#[test]
fn not_unicode_message_text() {
    let e = ServerOptionsFromEnvError::NotUnicode {
        name: "HTMX_SSR_BASE_URL",
    };
    assert_eq!(
        e.message(),
        "environment variable HTMX_SSR_BASE_URL was not unicode"
    );
}

#[test]
fn base_url_error_message_text() {
    let e = ServerOptions::from_env_value(EnvVarValue::Present("not a url".to_string()))
        .unwrap_err();
    assert_eq!(
        e.message(),
        "failed to parse the base URL from environment variable HTMX_SSR_BASE_URL \
         (was `not a url`): invalid uri character"
    );
}

#[test]
fn default_options_have_no_base_url() {
    let options = ServerOptions::default();
    assert!(options.base_url.is_none());
}
