use open_context::app_config::{AppConfig, ConfigManager, NodeServerConfig, QdrantConfig};
use open_context::app_state::app_config::{
    AppConfig as Settings, DatabaseConfig, NodeServerConfig as NodeSettings,
    QdrantConfig as QdrantSettings, SqliteConfig, SurrealDbConfig,
};
use open_context::logging::{
    component_prefix, FileRotator, LogConfig, LogLevel, LogTarget,
};

#[test]
fn test_default_config() {
    let config = AppConfig::default();
    assert_eq!(config.node_server.port, 4500);
    assert!(config.node_server.auto_start);
    assert_eq!(config.qdrant.url, "http://localhost:6333");
    assert_eq!(config.qdrant.embedding_dim, 1024);
    assert_eq!(config.log_level, "info");
}

#[test]
fn test_config_manager() {
    let mut manager = ConfigManager::default();
    let config = manager.get();
    assert_eq!(config.node_server.port, 4500);

    // Update configuration
    manager
        .update(|cfg| {
            cfg.node_server.port = 5000;
            Ok(())
        })
        .unwrap();

    let updated_config = manager.get();
    assert_eq!(updated_config.node_server.port, 5000);
}

#[test]
fn test_file_rotator_creation() {
    let rotator = FileRotator::new("./test_logs".to_string(), "test".to_string(), 7);
    assert_eq!(rotator.retention_days(), 7);
}

#[test]
fn failed_update_keeps_what_was_changed() {
    let mut manager = ConfigManager::new(AppConfig::default_in("/etc/oc"));
    let done = manager.update(|cfg| {
        cfg.node_server.port = 1;
        Err("refused".to_string())
    });
    assert_eq!(done, Err("refused".to_string()));
    assert_eq!(manager.get().node_server.port, 1);
    assert_eq!(manager.get().log_level, "info");
    let mut other = AppConfig::default_in("/srv");
    other.set_log_level("debug".to_string());
    manager.reload(other.clone());
    assert_eq!(manager.get().log_level, "debug");
    other.set_node_server_port(1234);
    manager.change_config_dir(other);
    assert_eq!(manager.get().node_server.port, 1234);
    assert_eq!(manager.get().workspaces_dir, "/srv/workspaces");
}

#[test]
fn paths_follow_the_directory() {
    let config = AppConfig::default_in("/home/u/.config/open-context");
    assert_eq!(config.workspaces_dir, "/home/u/.config/open-context/workspaces");
    assert_eq!(config.version, "0.1.0");
    assert_eq!(AppConfig::config_dir_in("/home/u"), "/home/u/.config/open-context");
    assert!(AppConfig::default_config_dir().ends_with("/.config/open-context"));
    match AppConfig::home_config_dir() {
        Some(dir) => assert_eq!(dir, AppConfig::default_config_dir()),
        None => assert_eq!(AppConfig::default_config_dir(), "./.config/open-context"),
    }
    assert_eq!(AppConfig::config_file_path("/c"), "/c/config.json");
    assert_eq!(Settings::sqlite_app_db_path("/b"), "/b/database/sqlite/app.db");
    assert_eq!(Settings::config_path("/b"), "/b/config.json");
    assert_eq!(Settings::database_dir("/b"), "/b/database");
}

#[test]
fn setters_change_one_value() {
    let mut config = AppConfig::default_in("/d");
    config.set_node_server_port(8080);
    config.set_node_server_auto_start(false);
    config.set_qdrant_url("http://q:1".to_string());
    config.set_qdrant_embedding_dim(16);
    config.set_log_level("trace".to_string());
    config.set_workspaces_dir("/w".to_string());
    assert_eq!(config.node_server.port, 8080);
    assert!(!config.node_server.auto_start);
    assert_eq!(config.qdrant.url, "http://q:1");
    assert_eq!(config.qdrant.embedding_dim, 16);
    assert_eq!(config.log_level, "trace");
    assert_eq!(config.workspaces_dir, "/w");
    assert_eq!(config.version, "0.1.0");
}

#[test]
fn database_defaults() {
    let node = NodeServerConfig::default();
    assert_eq!((node.port, node.auto_start), (4500, true));
    let qdrant = QdrantConfig::default();
    assert_eq!(qdrant.url, "http://localhost:6333");
    let sqlite = SqliteConfig::default();
    assert_eq!(sqlite.app_db, "app.db");
    assert_eq!(sqlite.symbol_db, "symbol.db");
    assert_eq!(sqlite.edge_db, "edge.db");
    assert_eq!(sqlite.reverse_edge_db, "reverse_edge.db");
    assert!(sqlite.wal_mode);
    assert_eq!(sqlite.busy_timeout, 5000);
    let surreal = SurrealDbConfig::default();
    assert_eq!(surreal.url, "http://localhost:8000");
    assert_eq!(surreal.namespace, "open_context");
    assert_eq!(surreal.database, "app_db");
    assert_eq!(surreal.username, "root");
    assert_eq!(surreal.password, "root");
    assert!(!surreal.embedded);
    let database = DatabaseConfig::default();
    assert_eq!(database.sqlite.app_db, "app.db");
    assert_eq!(database.qdrant.embedding_dim, 1536);
    let qdrant = QdrantSettings::default();
    assert_eq!(qdrant.url, "http://localhost:6333");
    assert_eq!(qdrant.api_key, None);
    assert_eq!(qdrant.collection_name, "open_context");
    assert_eq!(qdrant.distance, "Cosine");
    assert!(!qdrant.embedded);
    let node = NodeSettings::default();
    assert_eq!((node.port, node.host.as_str(), node.auto_start), (3000, "0.0.0.0", true));
}

#[test]
fn settings_default_below_the_base() {
    let settings = Settings::default_in("/base");
    assert_eq!(settings.version, "0.1.0");
    assert_eq!(settings.log_level, "info");
    assert_eq!(settings.app_data_dir, "/base");
    assert_eq!(settings.bin_dir, "/base/bin");
    assert_eq!(settings.cache_dir, "/base/cache");
    assert_eq!(settings.database_dir, "/base/database");
    assert_eq!(settings.notebook_dir, "/base/notebook");
    assert_eq!(settings.session_dir, "/base/session");
    assert_eq!(settings.workspace_dir, "/base/workspace");
    assert_eq!(settings.files_dir, "/base/files");
    assert_eq!(settings.logs_dir, "/base/logs");
    assert_eq!(settings.plugins_dir, "/base/plugins");
    assert_eq!(settings.commands_dir, "/base/commands");
    assert_eq!(settings.skills_dir, "/base/skills");
    assert_eq!(settings.rules_dir, "/base/rules");
    assert_eq!(settings.hooks_dir, "/base/hooks");
    assert_eq!(settings.database.unwrap().sqlite.busy_timeout, 5000);
    assert_eq!(settings.node_server.unwrap().port, 3000);
}

#[test]
fn loaded_settings_are_completed_from_the_defaults() {
    let mut loaded = Settings::default_in("/mine");
    loaded.version = "9".to_string();
    loaded.log_level = "".to_string();
    loaded.app_data_dir = "".to_string();
    loaded.bin_dir = "".to_string();
    loaded.hooks_dir = "".to_string();
    loaded.database = None;
    let mut node = NodeSettings::default();
    node.port = 8123;
    loaded.node_server = Some(node);
    let merged = Settings::merge_config(loaded, Settings::default_in("/base"));
    assert_eq!(merged.version, "9");
    assert_eq!(merged.log_level, "");
    assert_eq!(merged.app_data_dir, "/base");
    assert_eq!(merged.bin_dir, "/base/bin");
    assert_eq!(merged.hooks_dir, "/base/hooks");
    assert_eq!(merged.cache_dir, "/mine/cache");
    assert_eq!(merged.logs_dir, "/mine/logs");
    assert_eq!(merged.database.unwrap().sqlite.app_db, "app.db");
    assert_eq!(merged.node_server.unwrap().port, 8123);

    let mut bare = Settings::default_in("");
    bare.node_server = None;
    let mut fallback = Settings::default_in("/d");
    fallback.node_server = None;
    fallback.database = None;
    let merged = Settings::merge_config(bare, fallback);
    assert_eq!(merged.app_data_dir, "/d");
    assert_eq!(merged.bin_dir, "/bin");
    assert!(merged.node_server.is_none());
    assert!(merged.database.is_some());
}

#[test]
fn log_settings_take_defaults() {
    let dev = LogConfig::from_settings("open-app", None, None, None, "/base", None, true);
    assert_eq!(dev.level, LogLevel::Debug);
    assert_eq!(dev.target, LogTarget::Both);
    assert_eq!(dev.log_dir, "/base/logs");
    assert_eq!(dev.file_prefix, "open-app");
    assert_eq!(dev.retention_days, 7);
    let prod = LogConfig::from_settings("p", None, None, None, "/base", None, false);
    assert_eq!(prod.level, LogLevel::Info);
    assert_eq!(prod.target, LogTarget::File);
    let set = LogConfig::from_settings(
        "p",
        Some(LogLevel::Error),
        Some(LogTarget::Console),
        Some("/var/log".to_string()),
        "/base",
        Some(30),
        true,
    );
    assert_eq!(set.level, LogLevel::Error);
    assert_eq!(set.target, LogTarget::Console);
    assert_eq!(set.log_dir, "/var/log");
    assert_eq!(set.retention_days, 30);
    assert_eq!(set.get_log_file_path("2024-05-01"), "/var/log/p-2024-05-01.log");
}

#[test]
fn log_targets_and_prefixes() {
    assert_eq!(LogTarget::parse("console"), Some(LogTarget::Console));
    assert_eq!(LogTarget::parse("file"), Some(LogTarget::File));
    assert_eq!(LogTarget::parse("both"), Some(LogTarget::Both));
    assert_eq!(LogTarget::parse("Both"), None);
    assert_eq!(LogTarget::parse(""), None);
    assert!(LogTarget::Console.to_console() && !LogTarget::Console.to_file());
    assert!(!LogTarget::File.to_console() && LogTarget::File.to_file());
    assert!(LogTarget::Both.to_console() && LogTarget::Both.to_file());
    assert_eq!(component_prefix("app"), "open-app");
    assert_eq!(component_prefix("node"), "open-node");
    assert_eq!(component_prefix("web"), "open-web");
    assert_eq!(component_prefix("anything"), "open-app");
}

#[test]
fn rotator_knows_what_is_outdated() {
    let rotator = FileRotator::new("/logs".to_string(), "app".to_string(), 7);
    assert_eq!(rotator.log_dir(), "/logs");
    assert_eq!(rotator.file_prefix(), "app");
    let week: i64 = 7 * 86_400_000;
    assert!(rotator.is_outdated(0, week + 1));
    assert!(!rotator.is_outdated(1, week + 1));
    assert!(!rotator.is_outdated(i64::MAX, i64::MIN));
    assert!(rotator.is_outdated(i64::MIN, i64::MAX));
    assert!(rotator.covers("app-2024-05-01.log"));
    assert!(rotator.covers("app.log"));
    assert!(!rotator.covers("app-2024-05-01.txt"));
    assert!(!rotator.covers("web-2024-05-01.log"));
    assert!(!rotator.covers("log"));
    assert!(rotator.removes("app-1.log", 0, week + 1));
    assert!(!rotator.removes("app-1.log", 1, week + 1));
    assert!(!rotator.removes("other-1.log", 0, week + 1));
    let never = FileRotator::new("/logs".to_string(), "app".to_string(), u32::MAX);
    assert!(!never.is_outdated(0, 371_085_174_288_000_000));
    assert!(never.is_outdated(0, 371_085_174_288_000_001));
}
