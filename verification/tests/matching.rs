use health_checker::matching::{
    contains_sub, is_apple_silicon_profile, is_backend_ai_container, is_backend_ai_image,
    matches_backend_ai_name, str_eq,
};

#[test]
fn str_eq_compares_by_characters() {
    assert!(str_eq("PONG", "PONG"));
    assert!(!str_eq("PONG", "PONG "));
    assert!(!str_eq("PONG", "pong"));
    assert!(str_eq("", ""));
}

#[test]
fn contains_finds_substrings() {
    assert!(contains_sub("backend.ai-manager", "backend.ai"));
    assert!(contains_sub("anything", ""));
    assert!(!contains_sub("short", "much longer needle"));
    assert!(contains_sub("aaab", "aab"));
    assert!(!contains_sub("aaab", "abb"));
}

#[test]
fn container_names_are_matched_case_folded() {
    // Recognition must go through real case folding: the uppercase name
    // matches only after lowering.
    assert!(is_backend_ai_container("/BACKEND.AI-manager"));
    assert!(!matches_backend_ai_name("/BACKEND.AI-manager"));
    assert!(is_backend_ai_container("halfstack-postgres"));
    assert!(is_backend_ai_container("postgres-backend-1"));
    assert!(!is_backend_ai_container("postgres-standalone"));
    assert!(is_backend_ai_container("otel-collector"));
    assert!(!is_backend_ai_container("nginx"));
}

#[test]
fn image_names_are_matched_case_folded() {
    assert!(is_backend_ai_image("backend.ai/manager:24.03"));
    assert!(is_backend_ai_image("Postgres:15-alpine"));
    assert!(!is_backend_ai_image("postgres:13"));
    assert!(is_backend_ai_image("redis:7.2"));
    assert!(!is_backend_ai_image("redis:6"));
    assert!(is_backend_ai_image("otel/opentelemetry-collector:0.92"));
    assert!(!is_backend_ai_image("nginx:latest"));
}

#[test]
fn apple_silicon_profile_needs_apple_and_a_generation() {
    assert!(is_apple_silicon_profile("Chipset Model: Apple M2 Max"));
    assert!(is_apple_silicon_profile("Apple M4"));
    assert!(!is_apple_silicon_profile("Apple GPU"));
    assert!(!is_apple_silicon_profile("Intel M1 board"));
    assert!(!is_apple_silicon_profile("apple m2"));
}
