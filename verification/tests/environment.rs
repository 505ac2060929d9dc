use odin::utils::environment::{fetch_var, Config, EnvironmentBinding};

#[test]
fn binding_holds_key_and_value() {
    let binding = EnvironmentBinding::new("LD_PRELOAD", "lib.so");
    assert_eq!(binding.key(), "LD_PRELOAD");
    assert_eq!(binding.value(), "lib.so");
}

#[test]
fn new_config_sets_nothing() {
    let config = Config::new();
    assert_eq!(config.get("WEBHOOK_URL"), None);
    assert_eq!(config.get(""), None);
}

#[test]
fn set_then_get_returns_the_value() {
    let mut config = Config::new();
    config.set("DOORSTOP_LIB", "libdoorstop.so");
    assert_eq!(config.get("DOORSTOP_LIB"), Some("libdoorstop.so".to_string()));
    assert_eq!(config.get("DOORSTOP_LIBS"), None);
    assert_eq!(config.get("doorstop_lib"), None);
}

#[test]
fn set_replaces_an_earlier_value() {
    let mut config = Config::new();
    config.set("A", "1");
    config.set("B", "2");
    config.set("A", "3");
    assert_eq!(config.get("A"), Some("3".to_string()));
    assert_eq!(config.get("B"), Some("2".to_string()));
}

#[test]
fn set_keeps_an_empty_value() {
    let mut config = Config::new();
    config.set("A", "");
    assert_eq!(config.get("A"), Some(String::new()));
}

#[test]
fn remove_unsets_only_the_name() {
    let mut config = Config::new();
    config.set("A", "1");
    config.set("B", "2");
    config.set("A", "3");
    config.remove("A");
    assert_eq!(config.get("A"), None);
    assert_eq!(config.get("B"), Some("2".to_string()));
    config.remove("C");
    assert_eq!(config.get("B"), Some("2".to_string()));
}

#[test]
fn fetch_var_returns_the_value_that_is_set() {
    let mut config = Config::new();
    config.set("NAME", "value");
    assert_eq!(fetch_var(&config, "NAME", "default"), "value");
}

#[test]
fn fetch_var_returns_the_default_for_an_unset_name() {
    let config = Config::new();
    assert_eq!(fetch_var(&config, "NAME", "default"), "default");
    assert_eq!(fetch_var(&config, "NAME", ""), "");
}

#[test]
fn fetch_var_returns_the_default_for_an_empty_value() {
    let mut config = Config::new();
    config.set("NAME", "");
    assert_eq!(fetch_var(&config, "NAME", "default"), "default");
}

#[test]
fn fetch_var_reads_the_configuration_each_time() {
    let mut config = Config::new();
    assert_eq!(fetch_var(&config, "NAME", "default"), "default");
    config.set("NAME", "first");
    assert_eq!(fetch_var(&config, "NAME", "default"), "first");
    config.set("NAME", "second");
    assert_eq!(fetch_var(&config, "NAME", "default"), "second");
    config.remove("NAME");
    assert_eq!(fetch_var(&config, "NAME", "default"), "default");
}
