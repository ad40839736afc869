use mosaic_core::features::legacy::{legacy_feature_keys, LegacyFeatureToggles};
use mosaic_core::features::{
    feature_for_key, feature_specs, is_known_feature_key, Feature, Features, FeaturesToml, Stage,
};
use mosaic_core::strmap::StrMap;

#[test]
fn under_development_features_disabled_by_default() {
    for spec in feature_specs() {
        if matches!(spec.stage, Stage::UnderDevelopment) {
            assert!(
                !spec.default_enabled,
                "feature `{}` is under development but enabled by default",
                spec.key
            );
        }
    }
}

#[test]
fn default_enabled_features_are_stable_or_removed() {
    for spec in feature_specs() {
        if spec.default_enabled {
            assert!(
                matches!(spec.stage, Stage::Stable | Stage::Removed),
                "feature `{}` enabled by default but stage is {:?}",
                spec.key,
                spec.stage
            );
        }
    }
}

#[test]
fn with_defaults_enables_stable_defaults() {
    let f = Features::with_defaults();
    assert!(f.enabled(Feature::ShellTool));
    assert!(f.enabled(Feature::Sqlite));
    assert!(!f.enabled(Feature::JsRepl));
    assert!(!f.enabled(Feature::MemoryTool));
}

#[test]
fn enable_disable_toggle() {
    let mut f = Features::with_defaults();
    assert!(!f.enabled(Feature::JsRepl));
    f.enable(Feature::JsRepl);
    assert!(f.enabled(Feature::JsRepl));
    f.disable(Feature::JsRepl);
    assert!(!f.enabled(Feature::JsRepl));
}

#[test]
fn apply_map_sets_features() {
    let mut f = Features::with_defaults();
    let mut m = StrMap::new();
    m.insert("js_repl".to_string(), true);
    m.insert("shell_tool".to_string(), false);
    f.apply_map(&m);
    assert!(f.enabled(Feature::JsRepl));
    assert!(!f.enabled(Feature::ShellTool));
}

#[test]
fn apply_map_ignores_unknown_keys() {
    let mut f = Features::with_defaults();
    let mut m = StrMap::new();
    m.insert("no_such_feature".to_string(), true);
    f.apply_map(&m);
    assert_eq!(f.enabled_features(), Features::with_defaults().enabled_features());
}

#[test]
fn legacy_alias_collab() {
    assert_eq!(feature_for_key("multi_agent"), Some(Feature::Collab));
    assert_eq!(feature_for_key("collab"), Some(Feature::Collab));
}

#[test]
fn from_config_parses_features_json() {
    let mut entries = StrMap::new();
    entries.insert("js_repl".to_string(), true);
    entries.insert("shell_tool".to_string(), false);
    let f = Features::from_features_toml(&FeaturesToml { entries });
    assert!(f.enabled(Feature::JsRepl));
    assert!(!f.enabled(Feature::ShellTool));
}

#[test]
fn from_config_enforces_js_repl_dependency() {
    let mut entries = StrMap::new();
    entries.insert("js_repl_tools_only".to_string(), true);
    let f = Features::from_features_toml(&FeaturesToml { entries });
    assert!(!f.enabled(Feature::JsReplToolsOnly));

    let mut entries = StrMap::new();
    entries.insert("js_repl_tools_only".to_string(), true);
    entries.insert("js_repl".to_string(), true);
    let f = Features::from_features_toml(&FeaturesToml { entries });
    assert!(f.enabled(Feature::JsReplToolsOnly));
}

#[test]
fn feature_key_roundtrip() {
    let specs = feature_specs();
    assert_eq!(specs.len(), 41);
    for spec in specs {
        assert_eq!(spec.id.key(), spec.key);
        assert_eq!(spec.id.stage(), spec.stage);
        assert_eq!(spec.id.default_enabled(), spec.default_enabled);
        assert_eq!(feature_for_key(spec.key), Some(spec.id));
    }
}

#[test]
fn is_known_feature_key_works() {
    assert!(is_known_feature_key("js_repl"));
    assert!(is_known_feature_key("collab"));
    assert!(!is_known_feature_key("nonexistent_feature"));
}

#[test]
fn enabled_features_returns_all_enabled() {
    let mut f = Features::with_defaults();
    f.enable(Feature::JsRepl);
    let list = f.enabled_features();
    assert!(list.contains(&Feature::JsRepl));
    assert!(list.contains(&Feature::ShellTool));
    let mut sorted = list.clone();
    sorted.sort();
    assert_eq!(list, sorted);
}

#[test]
fn legacy_toggles_apply_in_order() {
    let mut f = Features::with_defaults();
    let toggles = LegacyFeatureToggles {
        include_apply_patch_tool: Some(true),
        experimental_use_freeform_apply_patch: Some(false),
        experimental_use_unified_exec_tool: None,
        tools_web_search: Some(true),
    };
    toggles.apply(&mut f);
    assert!(!f.enabled(Feature::ApplyPatchFreeform));
    assert!(f.enabled(Feature::WebSearchRequest));
    assert!(legacy_feature_keys().contains(&"include_apply_patch_tool"));
}
