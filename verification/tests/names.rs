use sonar::config::Target;
use sonar::names::{counter_success_name, normalize_chars, normalize_name, timer_name};

#[test]
fn normalizes_a_url() {
    assert_eq!(normalize_name(String::from("http://example.com")), "http_example_com");
    assert_eq!(normalize_name(String::from("https://a.b:8080/x")), "https_a_b______x");
}

#[test]
fn joins_the_scheme_separator_into_one_underscore() {
    assert_eq!(normalize_name(String::from("a://b")), "a_b");
    assert_eq!(normalize_name(String::from("a:///b")), "a__b");
    assert_eq!(normalize_name(String::from("a:/b")), "a__b");
    assert_eq!(normalize_name(String::from("://://")), "__");
    assert_eq!(normalize_name(String::from("::://")), "___");
}

#[test]
fn keeps_letters_and_replaces_the_rest() {
    assert_eq!(normalize_name(String::from("AbZ")), "AbZ");
    assert_eq!(normalize_name(String::from("a1-b.c d")), "a__b_c_d");
    assert_eq!(normalize_name(String::from("caf\u{e9}")), "caf_");
    assert_eq!(normalize_name(String::new()), "");
}

#[test]
fn normalizing_twice_changes_nothing() {
    for name in ["https://a-b.c/d?e=1", "", "://", "plain", "a://b://c", "x y\tz"] {
        let once = normalize_name(String::from(name));
        assert_eq!(normalize_name(once.clone()), once);
    }
}

#[test]
fn normalizes_characters_like_strings() {
    let out = normalize_chars(&"http://x.y".chars().collect());
    assert_eq!(out.into_iter().collect::<String>(), "http_x_y");
}

#[test]
fn a_target_normalizes_like_the_module() {
    assert_eq!(Target::normalize_name(&String::from("http://example.com")), "http_example_com");
}

#[test]
fn composes_metric_names() {
    assert_eq!(counter_success_name(String::from("http://a.b")), "http_a_b_success");
    assert_eq!(timer_name(String::from("http://a.b")), "http_a_b_time_ms");
    assert_eq!(counter_success_name(String::from("my-site.v2")), "my_site_v__success");
    assert_eq!(timer_name(String::from("plain")), "plain_time_ms");
}
