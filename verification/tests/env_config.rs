use nexo_plugin_web_search::env_config::{
    broker_kind_for, config_file_path, is_nats_url, resolve_config_path, ConfigPathSource,
};

#[test]
fn broker_kind_defaults_to_local() {
    assert_eq!(broker_kind_for("", None), "local");
}

#[test]
fn nats_url_implies_nats_kind() {
    assert_eq!(broker_kind_for("nats://localhost:4222", None), "nats");
}

#[test]
fn explicit_broker_kind_wins() {
    assert_eq!(broker_kind_for("nats://localhost:4222", Some("stdio_bridge".into())), "stdio_bridge");
    assert!(is_nats_url("nats://x"));
    assert!(!is_nats_url("tcp://nats://x"));
}

#[test]
fn config_dir_locates_the_operator_file() {
    assert_eq!(
        resolve_config_path(None, Some("/nonexistent-test".into())),
        ConfigPathSource::ConfigDir("/nonexistent-test".into())
    );
}

#[test]
fn override_path_wins_over_config_dir() {
    assert_eq!(
        resolve_config_path(Some("/etc/ws.yaml".into()), Some("/cfg".into())),
        ConfigPathSource::Override("/etc/ws.yaml".into())
    );
}

#[test]
fn empty_variables_fall_back_to_default_path() {
    assert_eq!(resolve_config_path(Some(String::new()), Some(String::new())), ConfigPathSource::Default);
    assert_eq!(resolve_config_path(None, None), ConfigPathSource::Default);
}

#[test]
fn config_file_path_follows_its_source() {
    assert_eq!(config_file_path(&ConfigPathSource::Override("/x/ws.yaml".into())), "/x/ws.yaml");
    assert_eq!(
        config_file_path(&ConfigPathSource::ConfigDir("/etc/nexo".into())),
        "/etc/nexo/plugins/web-search.yaml"
    );
    assert_eq!(
        config_file_path(&ConfigPathSource::ConfigDir("/etc/nexo/".into())),
        "/etc/nexo/plugins/web-search.yaml"
    );
    assert_eq!(config_file_path(&ConfigPathSource::Default), "./config/plugins/web-search.yaml");
}
