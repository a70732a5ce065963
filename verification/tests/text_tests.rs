use gametorch::text::{
    base_url_for, default_zip_path, i64_dec, resolve_output_path, u64_dec, url_animation,
    url_animation_result_zip, url_animation_results, url_animations, url_regenerate,
};

#[test]
fn decimal_rendering_of_unsigned_values() {
    assert_eq!(u64_dec(0), "0");
    assert_eq!(u64_dec(7), "7");
    assert_eq!(u64_dec(10), "10");
    assert_eq!(u64_dec(42), "42");
    assert_eq!(u64_dec(120), "120");
    assert_eq!(u64_dec(1234567890), "1234567890");
    assert_eq!(u64_dec(u64::MAX), "18446744073709551615");
}

#[test]
fn decimal_rendering_of_signed_values() {
    assert_eq!(i64_dec(0), "0");
    assert_eq!(i64_dec(42), "42");
    assert_eq!(i64_dec(-5), "-5");
    assert_eq!(i64_dec(i64::MIN), "-9223372036854775808");
    assert_eq!(i64_dec(i64::MAX), "9223372036854775807");
}

#[test]
fn derived_zip_path() {
    assert_eq!(default_zip_path(42, 77), "animation_42_77.zip");
    assert_eq!(default_zip_path(0, 0), "animation_0_0.zip");
}

#[test]
fn output_path_prefers_caller_choice() {
    assert_eq!(resolve_output_path(Some("out.zip"), 42, 77), "out.zip");
    assert_eq!(resolve_output_path(None, 42, 77), "animation_42_77.zip");
}

#[test]
fn base_urls() {
    assert_eq!(base_url_for(true), "http://localhost:8000");
    assert_eq!(base_url_for(false), "https://gametorch.app");
}

#[test]
fn endpoint_urls() {
    let base = "https://gametorch.app";
    assert_eq!(
        url_animation_results(base, "42"),
        "https://gametorch.app/api/animation_results/42"
    );
    assert_eq!(url_animations(base), "https://gametorch.app/api/animations");
    assert_eq!(url_animation(base), "https://gametorch.app/api/animation");
    assert_eq!(
        url_animation_result_zip(base, "77"),
        "https://gametorch.app/api/animation_result_zip/77"
    );
    assert_eq!(
        url_regenerate(base, "42"),
        "https://gametorch.app/api/animation/regenerate/42"
    );
}
