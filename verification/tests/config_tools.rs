use presence_core::config::{all_tool_names, Config};

#[test]
fn test_config_default() {
    let config = Config::default();
    assert!(config.disabled.is_empty());
    assert!(config.is_enabled("get_system_info"));
}

#[test]
fn test_enable_disable() {
    let mut config = Config::default();

    config.disable("capture_audio");
    assert!(!config.is_enabled("capture_audio"));
    assert!(config.is_enabled("get_system_info"));

    config.enable("capture_audio");
    assert!(config.is_enabled("capture_audio"));
}

#[test]
fn test_disable_is_idempotent() {
    let mut config = Config::default();
    config.disable("get_weather");
    config.disable("get_weather");
    assert_eq!(config.disabled.len(), 1);
    assert!(!config.is_enabled("get_weather"));
}

#[test]
fn test_enable_removes_every_entry() {
    let mut config = Config {
        disabled: vec![
            "get_weather".to_string(),
            "capture_audio".to_string(),
            "get_weather".to_string(),
        ],
    };
    config.enable("get_weather");
    assert_eq!(config.disabled, vec!["capture_audio".to_string()]);
}

#[test]
fn test_disabled_set_mirrors_list() {
    let mut config = Config::default();
    config.disable("capture_audio");
    config.disable("get_input_level");
    let set = config.disabled_set();
    assert_eq!(set.len(), 2);
    assert!(set.contains("capture_audio"));
    assert!(set.contains("get_input_level"));
    assert!(!set.contains("get_weather"));
}

#[test]
fn test_all_tool_names_catalogue() {
    let tools = all_tool_names();
    assert_eq!(tools.len(), 155);
    assert!(tools.contains(&"list_microphones"));
    assert!(tools.contains(&"get_microphone_info"));
    assert!(tools.contains(&"capture_audio"));
    assert!(tools.contains(&"get_input_level"));
    assert_eq!(tools[0], "get_context");
}

#[test]
fn test_all_tool_names_has_no_duplicates() {
    let tools = all_tool_names();
    let unique: std::collections::HashSet<&str> = tools.iter().copied().collect();
    assert_eq!(unique.len(), tools.len());
}
