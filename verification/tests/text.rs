use pydantic_core::iteration_order::{iteration_order_labels, push_decimal};
use pydantic_core::json::{from_json_options, FloatMode, JsonParseOptions, PartialMode, StringCacheMode};
use pydantic_core::version::{build_info, get_pydantic_core_version, replace_str};

#[test]
fn release_version_unchanged() {
    assert_eq!(get_pydantic_core_version("2.41.5"), "2.41.5");
}

#[test]
fn alpha_and_beta_versions() {
    assert_eq!(get_pydantic_core_version("1.0.0-alpha1"), "1.0.0a1");
    assert_eq!(get_pydantic_core_version("1.0.0-beta.2"), "1.0.0b.2");
    assert_eq!(get_pydantic_core_version("0.1-alpha-beta"), "0.1ab");
}

#[test]
fn replace_matches_std() {
    for (text, pat, rep) in [
        ("--alphalpha", "-alpha", "a"),
        ("aaaa", "aa", "b"),
        ("", "x", "y"),
        ("héllo-héllo", "llo", "LL"),
        ("abc", "abcd", "z"),
    ] {
        assert_eq!(replace_str(text, pat, rep), text.replace(pat, rep));
    }
    assert_eq!(get_pydantic_core_version("--alphalpha"), "-alpha");
}

#[test]
fn build_info_text() {
    assert_eq!(build_info("release", false), "profile=release pgo=false");
    assert_eq!(build_info("dev", true), "profile=dev pgo=true");
}

#[test]
fn labels_count_from_zero() {
    let reprs: Vec<String> = (0..12).map(|i| format!("'k{}'", i)).collect();
    let labels = iteration_order_labels(&reprs);
    assert_eq!(labels.len(), 12);
    assert_eq!(labels[0], "0:'k0'");
    assert_eq!(labels[9], "9:'k9'");
    assert_eq!(labels[11], "11:'k11'");
    assert!(iteration_order_labels(&vec![]).is_empty());
}

#[test]
fn decimal_matches_display() {
    for n in [0usize, 7, 10, 99, 100, 12345, usize::MAX] {
        let mut out = String::from("#");
        push_decimal(&mut out, n);
        assert_eq!(out, format!("#{}", n));
    }
}

#[test]
fn json_options_fixed_parts() {
    assert_eq!(
        from_json_options(true, StringCacheMode::Keys, PartialMode::TrailingStrings),
        JsonParseOptions {
            allow_inf_nan: true,
            cache_mode: StringCacheMode::Keys,
            partial_mode: PartialMode::TrailingStrings,
            catch_duplicate_keys: false,
            float_mode: FloatMode::Float,
        }
    );
}

#[test]
fn partial_modes() {
    assert_eq!(PartialMode::from_bool(true), PartialMode::On);
    assert_eq!(PartialMode::from_bool(false), PartialMode::Off);
    assert!(!PartialMode::Off.is_active());
    assert!(PartialMode::On.is_active());
    assert!(PartialMode::TrailingStrings.is_active());
}
