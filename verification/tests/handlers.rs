use edge_gateway::api::create;
use edge_gateway::api::env::{secret_status, EnvVars};
use edge_gateway::api::greet;
use edge_gateway::api::hello;
use edge_gateway::api::search;
use edge_gateway::api::ApiError;
use edge_gateway::text::{char_is_white_space, decimal_text, is_blank, starts_with, take_prefix};

#[test]
fn create_rejects_an_empty_name() {
    let r = create::handler(Some(String::new()));
    assert_eq!(r.err(), Some(ApiError::BadRequest));
    assert_eq!(ApiError::BadRequest.status(), 400);
}

#[test]
fn create_rejects_a_blank_name() {
    let r = create::handler(Some("   ".to_string()));
    assert_eq!(r.err(), Some(ApiError::BadRequest));
    let r = create::handler(Some(" \t\n\u{3000}".to_string()));
    assert_eq!(r.err(), Some(ApiError::BadRequest));
}

#[test]
fn create_rejects_a_missing_name() {
    assert_eq!(create::handler(None).err(), Some(ApiError::BadRequest));
}

#[test]
fn create_echoes_the_record() {
    let r = create::handler(Some("Widget".to_string())).unwrap();
    assert_eq!(r.message, "Created: Widget");
    assert!(r.message.contains("Widget"));
    assert_eq!(r.name, "Widget");
    assert_eq!(r.id, 1);
}

#[test]
fn create_keeps_the_name_untrimmed() {
    let r = create::handler(Some("  Widget ".to_string())).unwrap();
    assert_eq!(r.name, "  Widget ");
    assert_eq!(r.message, "Created:   Widget ");
}

#[test]
fn search_rejects_a_missing_query() {
    assert_eq!(search::handler(None).err(), Some(ApiError::BadRequest));
}

#[test]
fn search_rejects_an_empty_query() {
    assert_eq!(search::handler(Some(String::new())).err(), Some(ApiError::BadRequest));
}

#[test]
fn search_echoes_the_query() {
    let r = search::handler(Some("foo".to_string())).unwrap();
    assert_eq!(r.message, "Search results for: foo");
    assert!(r.message.contains("foo"));
    assert_eq!(r.query, "foo");
    assert!(r.results.is_empty());
}

#[test]
fn search_accepts_a_blank_query() {
    let r = search::handler(Some(" ".to_string())).unwrap();
    assert_eq!(r.query, " ");
}

#[test]
fn greet_names_the_person() {
    let r = greet::handler("Ada");
    assert_eq!(r.message, "Hello, Ada!");
    assert!(r.message.contains("Ada"));
}

#[test]
fn hello_payloads_are_fixed() {
    assert_eq!(edge_gateway::api::hello().message, "Hello World from Rust!");
    let r = hello::handler();
    assert_eq!(r.message, "Hello from Rust API!");
    assert_eq!(r.status, "success");
    assert_eq!(r.version, "1.0.0");
}

#[test]
fn secret_is_cut_to_three_characters() {
    let secret = Some("abcdef123".to_string());
    let status = secret_status(&secret);
    assert_eq!(status, "Set (abc...)");
    assert!(!status.contains("abcdef123"));
    assert!(!status.contains("abcd"));
}

#[test]
fn short_secret_is_not_shown_at_all() {
    assert_eq!(secret_status(&Some("ab".to_string())), "Set (...)");
    assert_eq!(secret_status(&Some("abc".to_string())), "Set (...)");
    assert_eq!(secret_status(&Some(String::new())), "Set (...)");
    assert_eq!(secret_status(&Some("abcd".to_string())), "Set (abc...)");
    assert_eq!(secret_status(&Some("h\u{e9}llo".to_string())), "Set (h\u{e9}l...)");
}

#[test]
fn secret_that_is_not_set() {
    assert_eq!(secret_status(&None), "Not set");
}

#[test]
fn every_secret_that_is_set_is_configured() {
    assert_eq!(secret_status(&Some("not set".to_string())), "Set (not...)");
    assert_eq!(secret_status(&Some("notice".to_string())), "Set (not...)");
    assert_eq!(secret_status(&Some("Not set".to_string())), "Set (Not...)");
}

#[test]
fn secrets_with_one_prefix_look_alike() {
    let a = secret_status(&Some("abcdef123".to_string()));
    let b = secret_status(&Some("abcXYZ".to_string()));
    assert_eq!(a, b);
    assert_eq!(secret_status(&Some("x".to_string())), secret_status(&Some("yz".to_string())));
}

#[test]
fn env_report_never_holds_the_secret() {
    let vars = EnvVars {
        app_name: Some("gateway".to_string()),
        app_env: None,
        api_host: Some("localhost".to_string()),
        api_port: Some("8080".to_string()),
        secret_key: Some("abcdef123".to_string()),
    };
    let r = edge_gateway::api::env::handler(&vars);
    assert_eq!(r.message, "Environment variables from Rust");
    assert_eq!(r.app_name, "gateway");
    assert_eq!(r.app_env, "not set");
    assert_eq!(r.api_host, "localhost");
    assert_eq!(r.api_port, "8080");
    assert_eq!(r.secret_key, "Set (abc...)");
    let all = format!("{:?}", r);
    assert!(!all.contains("abcdef123"));
}

#[test]
fn white_space_is_what_std_trims() {
    let mut n: u32 = 0;
    while n <= 0x10FFFF {
        if let Some(c) = char::from_u32(n) {
            assert_eq!(char_is_white_space(c), c.is_whitespace());
        }
        n += 1;
    }
}

#[test]
fn blank_is_empty_after_trim() {
    for s in ["", " ", "   ", "\t\r\n", " a ", "a", "\u{a0}\u{2003}", "\u{200b}"] {
        assert_eq!(is_blank(s), s.trim().is_empty());
    }
}

#[test]
fn decimal_numerals() {
    assert_eq!(decimal_text(0), "0");
    assert_eq!(decimal_text(7), "7");
    assert_eq!(decimal_text(10), "10");
    assert_eq!(decimal_text(3001), "3001");
    assert_eq!(decimal_text(65535), "65535");
}

#[test]
fn prefixes() {
    assert!(starts_with("/api/greet/Ada", "/api/greet/"));
    assert!(!starts_with("/api/gree", "/api/greet/"));
    assert!(starts_with("abc", ""));
    assert_eq!(take_prefix("abcdef", 3), "abc");
    assert_eq!(take_prefix("ab", 3), "ab");
}

#[test]
fn wasm_exports() {
    assert_eq!(edge_gateway::wasm::greet("Ada"), "Hello, Ada! (from Rust WASM)");
    assert_eq!(edge_gateway::wasm::add(2, 3), 5);
    assert_eq!(edge_gateway::wasm::add(-7, 3), -4);
}

#[test]
fn greet_decodes_the_segment() {
    assert_eq!(greet::handler_for_segment("Ada").unwrap().message, "Hello, Ada!");
    assert_eq!(greet::handler_for_segment("Ada%20Lovelace").unwrap().message, "Hello, Ada Lovelace!");
    assert_eq!(greet::handler_for_segment("a+b").unwrap().message, "Hello, a+b!");
    assert_eq!(greet::handler_for_segment("caf%C3%A9").unwrap().message, "Hello, caf\u{e9}!");
    assert_eq!(greet::handler_for_segment("%zz").unwrap().message, "Hello, %zz!");
    assert_eq!(greet::handler_for_segment("%2F").unwrap().message, "Hello, /!");
}

#[test]
fn greet_rejects_a_segment_that_is_no_text() {
    assert_eq!(greet::handler_for_segment("%FF").err(), Some(ApiError::BadRequest));
    assert_eq!(greet::respond(None).err(), Some(ApiError::BadRequest));
    assert_eq!(greet::respond(Some("Ada".to_string())).unwrap().message, "Hello, Ada!");
}
