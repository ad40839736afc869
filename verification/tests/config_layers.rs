use mosaic_core::config::layer_stack::{apply_profile, ConfigLayer, ConfigLayerStack};
use mosaic_core::config::value::{
    apply_toml_override, build_cli_overrides_layer, copy_value, merge_json, merge_toml_values, ConfigValue,
};
use mosaic_core::strmap::StrMap;

fn from_toml(v: &toml::Value) -> ConfigValue {
    match v {
        toml::Value::String(s) => ConfigValue::Str(s.clone()),
        toml::Value::Integer(i) => ConfigValue::Int(*i),
        toml::Value::Float(f) => ConfigValue::Float(f.to_bits()),
        toml::Value::Boolean(b) => ConfigValue::Bool(*b),
        toml::Value::Datetime(d) => ConfigValue::Datetime(d.to_string()),
        toml::Value::Array(a) => ConfigValue::Array(a.iter().map(from_toml).collect()),
        toml::Value::Table(t) => {
            let mut m = StrMap::new();
            for (k, x) in t {
                m.insert(k.clone(), from_toml(x));
            }
            ConfigValue::Table(m)
        }
    }
}

fn parse_toml(text: &str) -> ConfigValue {
    let table: toml::Table = text.parse().unwrap();
    from_toml(&toml::Value::Table(table))
}

fn from_json(v: &serde_json::Value) -> ConfigValue {
    match v {
        serde_json::Value::Null => ConfigValue::Null,
        serde_json::Value::Bool(b) => ConfigValue::Bool(*b),
        serde_json::Value::Number(n) => match n.as_i64() {
            Some(i) => ConfigValue::Int(i),
            None => ConfigValue::Float(n.as_f64().unwrap_or(0.0).to_bits()),
        },
        serde_json::Value::String(s) => ConfigValue::Str(s.clone()),
        serde_json::Value::Array(a) => ConfigValue::Array(a.iter().map(from_json).collect()),
        serde_json::Value::Object(o) => {
            let mut m = StrMap::new();
            for (k, x) in o {
                m.insert(k.clone(), from_json(x));
            }
            ConfigValue::Table(m)
        }
    }
}

fn parse_json(text: &str) -> ConfigValue {
    from_json(&serde_json::from_str(text).unwrap())
}

fn to_json(v: &ConfigValue) -> serde_json::Value {
    match v {
        ConfigValue::Null => serde_json::Value::Null,
        ConfigValue::Bool(b) => serde_json::Value::Bool(*b),
        ConfigValue::Int(i) => serde_json::Value::from(*i),
        ConfigValue::Float(f) => serde_json::Value::from(f64::from_bits(*f)),
        ConfigValue::Str(s) | ConfigValue::Datetime(s) => serde_json::Value::String(s.clone()),
        ConfigValue::Array(a) => serde_json::Value::Array(a.iter().map(to_json).collect()),
        ConfigValue::Table(m) => {
            let mut o = serde_json::Map::new();
            for i in 0..m.len() {
                o.insert(m.key_at(i).clone(), to_json(m.value_at(i)));
            }
            serde_json::Value::Object(o)
        }
    }
}

fn get<'a>(v: &'a ConfigValue, key: &str) -> Option<&'a ConfigValue> {
    match v {
        ConfigValue::Table(m) => m.get(key),
        _ => None,
    }
}

fn str_at<'a>(v: &'a ConfigValue, key: &str) -> Option<&'a str> {
    match get(v, key) {
        Some(ConfigValue::Str(s)) => Some(s.as_str()),
        _ => None,
    }
}

fn make_config(model: Option<&str>) -> ConfigValue {
    let mut m = StrMap::new();
    m.insert(
        "model".to_string(),
        match model {
            Some(s) => ConfigValue::Str(s.to_string()),
            None => ConfigValue::Null,
        },
    );
    ConfigValue::Table(m)
}

fn defaults() -> ConfigValue {
    parse_json(r#"{"model": null, "mcp_servers": {}, "profiles": {}, "model_reasoning_effort": null, "web_search": null}"#)
}

#[test]
fn scalar_overlay_wins() {
    let mut base = parse_toml("model = \"gpt-3.5\"");
    let overlay = parse_toml("model = \"gpt-4\"");
    merge_toml_values(&mut base, &overlay);
    assert_eq!(str_at(&base, "model"), Some("gpt-4"));
}

#[test]
fn tables_merge_recursively() {
    let mut base = parse_toml("[tui]\ntheme = \"dark\"\nalt_screen = \"auto\"");
    let overlay = parse_toml("[tui]\ntheme = \"light\"");
    merge_toml_values(&mut base, &overlay);
    let tui = get(&base, "tui").unwrap();
    assert_eq!(str_at(tui, "theme"), Some("light"));
    assert_eq!(str_at(tui, "alt_screen"), Some("auto"));
}

#[test]
fn new_keys_added() {
    let mut base = parse_toml("model = \"gpt-4\"");
    let overlay = parse_toml("instructions = \"be helpful\"");
    merge_toml_values(&mut base, &overlay);
    assert_eq!(str_at(&base, "model"), Some("gpt-4"));
    assert_eq!(str_at(&base, "instructions"), Some("be helpful"));
}

#[test]
fn toml_merge_array_in_overlay_replaces_table() {
    let mut base = parse_toml("[x]\na = 1");
    let overlay = parse_toml("x = [1, 2]");
    merge_toml_values(&mut base, &overlay);
    assert_eq!(to_json(&base), serde_json::from_str::<serde_json::Value>(r#"{"x": [1, 2]}"#).unwrap());
}

#[test]
fn flat_override() {
    let layer = build_cli_overrides_layer(&[("model".into(), ConfigValue::Str("gpt-4o".into()))]);
    assert_eq!(str_at(&layer, "model"), Some("gpt-4o"));
}

#[test]
fn nested_override() {
    let layer = build_cli_overrides_layer(&[("tui.theme".into(), ConfigValue::Str("dark".into()))]);
    assert_eq!(str_at(get(&layer, "tui").unwrap(), "theme"), Some("dark"));
}

#[test]
fn multiple_overrides() {
    let layer = build_cli_overrides_layer(&[
        ("model".into(), ConfigValue::Str("gpt-4".into())),
        ("tui.theme".into(), ConfigValue::Str("light".into())),
    ]);
    assert_eq!(str_at(&layer, "model"), Some("gpt-4"));
    assert_eq!(str_at(get(&layer, "tui").unwrap(), "theme"), Some("light"));
}

#[test]
fn override_replaces_scalar_on_the_path_with_a_table() {
    let mut root = parse_toml("tui = \"plain\"\nmodel = \"m\"");
    apply_toml_override(&mut root, "tui.theme", ConfigValue::Str("dark".into()));
    assert_eq!(str_at(get(&root, "tui").unwrap(), "theme"), Some("dark"));
    assert_eq!(str_at(&root, "model"), Some("m"));
}

#[test]
fn override_then_read_gives_the_value() {
    let mut root = parse_toml("[a]\nb = { c = 1, d = 2 }");
    apply_toml_override(&mut root, "a.b.c", ConfigValue::Int(7));
    let b = get(get(&root, "a").unwrap(), "b").unwrap();
    assert!(matches!(get(b, "c"), Some(ConfigValue::Int(7))));
    assert!(matches!(get(b, "d"), Some(ConfigValue::Int(2))));
}

#[test]
fn json_null_overlay_changes_nothing() {
    let mut base = parse_json(r#"{"model": "gpt-4", "tui": {"theme": "dark"}}"#);
    let before = to_json(&base);
    merge_json(&mut base, &ConfigValue::Null);
    assert_eq!(to_json(&base), before);
    merge_json(&mut base, &parse_json(r#"{"model": null, "tui": {"theme": null}}"#));
    assert_eq!(to_json(&base), before);
}

#[test]
fn json_scalar_replaces_object() {
    let mut base = parse_json(r#"{"tui": {"theme": "dark"}}"#);
    merge_json(&mut base, &parse_json(r#"{"tui": 3}"#));
    assert_eq!(to_json(&base), serde_json::from_str::<serde_json::Value>(r#"{"tui": 3}"#).unwrap());
}

#[test]
fn copy_value_is_equal() {
    let v = parse_json(r#"{"a": [1, {"b": true}], "c": "x", "d": null}"#);
    assert_eq!(to_json(&copy_value(&v)), to_json(&v));
}

#[test]
fn empty_stack_returns_default() {
    let stack = ConfigLayerStack::new();
    assert_eq!(to_json(&stack.merge(&defaults())), to_json(&defaults()));
}

#[test]
fn single_layer() {
    let mut stack = ConfigLayerStack::new();
    stack.add_layer(ConfigLayer::User, make_config(Some("gpt-4")));
    let merged = stack.merge(&defaults());
    assert_eq!(str_at(&merged, "model"), Some("gpt-4"));
}

#[test]
fn higher_priority_wins() {
    let mut stack = ConfigLayerStack::new();
    stack.add_layer(ConfigLayer::Session, make_config(Some("gpt-3.5")));
    stack.add_layer(ConfigLayer::Mdm, make_config(Some("gpt-4-mdm")));
    let merged = stack.merge(&defaults());
    assert_eq!(str_at(&merged, "model"), Some("gpt-4-mdm"));
}

#[test]
fn higher_priority_wins_whatever_the_order_of_adding() {
    let mut stack = ConfigLayerStack::new();
    stack.add_layer(ConfigLayer::Mdm, make_config(Some("gpt-4-mdm")));
    stack.add_layer(ConfigLayer::Session, make_config(Some("gpt-3.5")));
    stack.add_layer(ConfigLayer::Project, make_config(None));
    let merged = stack.merge(&defaults());
    assert_eq!(str_at(&merged, "model"), Some("gpt-4-mdm"));
}

#[test]
fn three_layer_priority() {
    let mut stack = ConfigLayerStack::new();
    stack.add_layer(ConfigLayer::Session, make_config(Some("session-model")));
    stack.add_layer(ConfigLayer::User, make_config(Some("user-model")));
    stack.add_layer(ConfigLayer::System, make_config(Some("system-model")));
    let merged = stack.merge(&defaults());
    assert_eq!(str_at(&merged, "model"), Some("system-model"));
}

#[test]
fn mcp_servers_merge() {
    let mut stack = ConfigLayerStack::new();
    let config_user = parse_json(
        r#"{"model": null, "mcp_servers": {"srv-a": {"command": "node", "args": [], "env": {}, "disabled": false}}}"#,
    );
    stack.add_layer(ConfigLayer::User, config_user);
    let merged = stack.merge(&defaults());
    assert!(get(get(&merged, "mcp_servers").unwrap(), "srv-a").is_some());
}

#[test]
fn profile_overrides_base() {
    let config = parse_json(r#"{"model": "default-model", "profiles": {"fast": {"model": "fast-model"}}}"#);
    let mut stack = ConfigLayerStack::new();
    stack.add_layer(ConfigLayer::User, config);
    let resolved = stack.resolve_with_profile(&defaults(), "fast");
    assert_eq!(str_at(&resolved, "model"), Some("fast-model"));
}

#[test]
fn nonexistent_profile_returns_base() {
    let mut stack = ConfigLayerStack::new();
    stack.add_layer(ConfigLayer::User, make_config(Some("gpt-4")));
    let resolved = stack.resolve_with_profile(&defaults(), "nonexistent");
    assert_eq!(str_at(&resolved, "model"), Some("gpt-4"));
}

#[test]
fn new_fields_merge_correctly() {
    let mut stack = ConfigLayerStack::new();
    let c1 = parse_json(r#"{"model_reasoning_effort": "low", "web_search": "cached"}"#);
    let c2 = parse_json(r#"{"model_reasoning_effort": "high", "web_search": null}"#);
    stack.add_layer(ConfigLayer::Session, c1);
    stack.add_layer(ConfigLayer::System, c2);
    let merged = stack.merge(&defaults());
    assert_eq!(str_at(&merged, "model_reasoning_effort"), Some("high"));
    assert_eq!(str_at(&merged, "web_search"), Some("cached"));
}

#[test]
fn profile_without_profiles_table_changes_nothing() {
    let merged = parse_json(r#"{"model": "m"}"#);
    let out = apply_profile(copy_value(&merged), "fast");
    assert_eq!(to_json(&out), to_json(&merged));
}
