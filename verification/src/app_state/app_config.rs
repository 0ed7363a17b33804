//! The settings of a workspace installation: the directories below its
//! base directory, the databases and the node server, with their defaults
//! and the rule by which a loaded file is completed from them.

use vstd::prelude::*;
use crate::text::joined;

verus! {

/// The version that new settings record.
pub const APP_VERSION: &'static str = "0.1.0";

/// How long SQLite waits for a lock by default, in milliseconds.
pub const DEFAULT_BUSY_TIMEOUT_MS: u32 = 5000;

/// The width of an embedding vector by default.
pub const DEFAULT_EMBEDDING_DIM: u32 = 1536;

/// The port on which the node server listens by default.
pub const DEFAULT_NODE_SERVER_PORT: u16 = 3000;

/// The files and the behaviour of the SQLite databases.
#[derive(Debug, Clone)]
pub struct SqliteConfig {
    pub app_db: String,
    pub symbol_db: String,
    pub edge_db: String,
    pub reverse_edge_db: String,
    pub wal_mode: bool,
    pub busy_timeout: u32,
}

impl Default for SqliteConfig {
    fn default() -> (config: Self)
        ensures
            config.app_db@ == "app.db"@,
            config.symbol_db@ == "symbol.db"@,
            config.edge_db@ == "edge.db"@,
            config.reverse_edge_db@ == "reverse_edge.db"@,
            config.wal_mode,
            config.busy_timeout == DEFAULT_BUSY_TIMEOUT_MS,
    {
        SqliteConfig {
            app_db: "app.db".to_owned(),
            symbol_db: "symbol.db".to_owned(),
            edge_db: "edge.db".to_owned(),
            reverse_edge_db: "reverse_edge.db".to_owned(),
            wal_mode: true,
            busy_timeout: DEFAULT_BUSY_TIMEOUT_MS,
        }
    }
}

/// Where SurrealDB is reached and how to sign in.
#[derive(Debug, Clone)]
pub struct SurrealDbConfig {
    pub url: String,
    pub namespace: String,
    pub database: String,
    pub username: String,
    pub password: String,
    pub embedded: bool,
}

impl Default for SurrealDbConfig {
    fn default() -> (config: Self)
        ensures
            config.url@ == "http://localhost:8000"@,
            config.namespace@ == "open_context"@,
            config.database@ == "app_db"@,
            config.username@ == "root"@,
            config.password@ == "root"@,
            !config.embedded,
    {
        SurrealDbConfig {
            url: "http://localhost:8000".to_owned(),
            namespace: "open_context".to_owned(),
            database: "app_db".to_owned(),
            username: "root".to_owned(),
            password: "root".to_owned(),
            embedded: false,
        }
    }
}

/// The settings of the three databases.
#[derive(Debug, Clone)]
pub struct DatabaseConfig {
    pub sqlite: SqliteConfig,
    pub surrealdb: SurrealDbConfig,
    pub qdrant: QdrantConfig,
}

impl Default for DatabaseConfig {
    fn default() -> (config: Self)
        ensures
            config.sqlite.app_db@ == "app.db"@,
            config.sqlite.busy_timeout == DEFAULT_BUSY_TIMEOUT_MS,
            config.surrealdb.namespace@ == "open_context"@,
            config.qdrant.url@ == "http://localhost:6333"@,
            config.qdrant.embedding_dim == DEFAULT_EMBEDDING_DIM,
    {
        DatabaseConfig {
            sqlite: SqliteConfig::default(),
            surrealdb: SurrealDbConfig::default(),
            qdrant: QdrantConfig::default(),
        }
    }
}

/// The settings of the Qdrant vector database.
#[derive(Debug, Clone)]
pub struct QdrantConfig {
    pub url: String,
    pub api_key: Option<String>,
    pub embedding_dim: u32,
    pub collection_name: String,
    pub distance: String,
    pub embedded: bool,
}

impl Default for QdrantConfig {
    fn default() -> (config: Self)
        ensures
            config.url@ == "http://localhost:6333"@,
            config.api_key.is_none(),
            config.embedding_dim == DEFAULT_EMBEDDING_DIM,
            config.collection_name@ == "open_context"@,
            config.distance@ == "Cosine"@,
            !config.embedded,
    {
        QdrantConfig {
            url: "http://localhost:6333".to_owned(),
            api_key: None,
            embedding_dim: DEFAULT_EMBEDDING_DIM,
            collection_name: "open_context".to_owned(),
            distance: "Cosine".to_owned(),
            embedded: false,
        }
    }
}

/// The settings of the node server.
#[derive(Debug, Clone)]
pub struct NodeServerConfig {
    pub port: u16,
    pub host: String,
    pub auto_start: bool,
}

impl Default for NodeServerConfig {
    fn default() -> (config: Self)
        ensures
            config.port == DEFAULT_NODE_SERVER_PORT,
            config.host@ == "0.0.0.0"@,
            config.auto_start,
    {
        NodeServerConfig {
            port: DEFAULT_NODE_SERVER_PORT,
            host: "0.0.0.0".to_owned(),
            auto_start: true,
        }
    }
}

/// The settings of a workspace installation.
#[derive(Debug, Clone)]
pub struct AppConfig {
    pub version: String,
    pub log_level: String,
    pub app_data_dir: String,
    pub bin_dir: String,
    pub cache_dir: String,
    pub database_dir: String,
    pub notebook_dir: String,
    pub session_dir: String,
    pub workspace_dir: String,
    pub files_dir: String,
    pub logs_dir: String,
    pub plugins_dir: String,
    pub commands_dir: String,
    pub skills_dir: String,
    pub rules_dir: String,
    pub hooks_dir: String,
    pub database: Option<DatabaseConfig>,
    pub node_server: Option<NodeServerConfig>,
}

/// A directory as loaded, or the default where the file names none.
pub open spec fn dir_or_default(loaded: String, default: String) -> String {
    if loaded@.len() == 0 {
        default
    } else {
        loaded
    }
}

/// A part of the settings as loaded, or the default where the file has
/// none.
pub open spec fn part_or_default<T>(loaded: Option<T>, default: Option<T>) -> Option<T> {
    if loaded.is_none() {
        default
    } else {
        loaded
    }
}

/// The directory that the settings are filled from where the loaded file
/// leaves one empty.
fn fill(loaded: String, default: String) -> (dir: String)
    ensures
        dir == dir_or_default(loaded, default),
{
    if loaded.as_str().is_empty() {
        default
    } else {
        loaded
    }
}

impl AppConfig {
    /// Whether the settings hold the defaults for the base directory
    /// `base`.
    pub open spec fn is_default_in(self, base: Seq<char>) -> bool {
        &&& self.version@ == APP_VERSION@
        &&& self.log_level@ == "info"@
        &&& self.app_data_dir@ == base
        &&& self.bin_dir@ == base + "/bin"@
        &&& self.cache_dir@ == base + "/cache"@
        &&& self.database_dir@ == base + "/database"@
        &&& self.notebook_dir@ == base + "/notebook"@
        &&& self.session_dir@ == base + "/session"@
        &&& self.workspace_dir@ == base + "/workspace"@
        &&& self.files_dir@ == base + "/files"@
        &&& self.logs_dir@ == base + "/logs"@
        &&& self.plugins_dir@ == base + "/plugins"@
        &&& self.commands_dir@ == base + "/commands"@
        &&& self.skills_dir@ == base + "/skills"@
        &&& self.rules_dir@ == base + "/rules"@
        &&& self.hooks_dir@ == base + "/hooks"@
        &&& self.database.is_some()
        &&& self.database.unwrap().sqlite.app_db@ == "app.db"@
        &&& self.database.unwrap().qdrant.url@ == "http://localhost:6333"@
        &&& self.node_server.is_some()
        &&& self.node_server.unwrap().port == DEFAULT_NODE_SERVER_PORT
    }

    /// The default settings for the base directory `base`: every directory
    /// lies directly below it.
    pub fn default_in(base: &str) -> (config: Self)
        ensures
            config.is_default_in(base@),
    {
        AppConfig {
            version: APP_VERSION.to_owned(),
            log_level: "info".to_owned(),
            app_data_dir: base.to_owned(),
            bin_dir: joined(base, "/bin"),
            cache_dir: joined(base, "/cache"),
            database_dir: joined(base, "/database"),
            notebook_dir: joined(base, "/notebook"),
            session_dir: joined(base, "/session"),
            workspace_dir: joined(base, "/workspace"),
            files_dir: joined(base, "/files"),
            logs_dir: joined(base, "/logs"),
            plugins_dir: joined(base, "/plugins"),
            commands_dir: joined(base, "/commands"),
            skills_dir: joined(base, "/skills"),
            rules_dir: joined(base, "/rules"),
            hooks_dir: joined(base, "/hooks"),
            database: Some(DatabaseConfig::default()),
            node_server: Some(NodeServerConfig::default()),
        }
    }

    /// The configuration file below the base directory `base`.
    pub fn config_path(base: &str) -> (path: String)
        ensures
            path@ == base@ + "/config.json"@,
    {
        joined(base, "/config.json")
    }

    /// The directory of the databases below the base directory `base`.
    pub fn database_dir(base: &str) -> (path: String)
        ensures
            path@ == base@ + "/database"@,
    {
        joined(base, "/database")
    }

    /// The application's SQLite database below the base directory `base`.
    pub fn sqlite_app_db_path(base: &str) -> (path: String)
        ensures
            path@ == base@ + "/database/sqlite/app.db"@,
    {
        joined(base, "/database/sqlite/app.db")
    }

    /// The loaded settings completed from the defaults: a directory that
    /// the file leaves empty, and a part that it leaves out, is taken from
    /// `default`. Everything else stays as loaded.
    pub fn merge_config(loaded: AppConfig, default: AppConfig) -> (merged: AppConfig)
        ensures
            merged == (AppConfig {
                app_data_dir: dir_or_default(loaded.app_data_dir, default.app_data_dir),
                bin_dir: dir_or_default(loaded.bin_dir, default.bin_dir),
                cache_dir: dir_or_default(loaded.cache_dir, default.cache_dir),
                database_dir: dir_or_default(loaded.database_dir, default.database_dir),
                notebook_dir: dir_or_default(loaded.notebook_dir, default.notebook_dir),
                session_dir: dir_or_default(loaded.session_dir, default.session_dir),
                workspace_dir: dir_or_default(loaded.workspace_dir, default.workspace_dir),
                files_dir: dir_or_default(loaded.files_dir, default.files_dir),
                logs_dir: dir_or_default(loaded.logs_dir, default.logs_dir),
                plugins_dir: dir_or_default(loaded.plugins_dir, default.plugins_dir),
                commands_dir: dir_or_default(loaded.commands_dir, default.commands_dir),
                skills_dir: dir_or_default(loaded.skills_dir, default.skills_dir),
                rules_dir: dir_or_default(loaded.rules_dir, default.rules_dir),
                hooks_dir: dir_or_default(loaded.hooks_dir, default.hooks_dir),
                database: part_or_default(loaded.database, default.database),
                node_server: part_or_default(loaded.node_server, default.node_server),
                ..loaded
            }),
    {
        AppConfig {
            version: loaded.version,
            log_level: loaded.log_level,
            app_data_dir: fill(loaded.app_data_dir, default.app_data_dir),
            bin_dir: fill(loaded.bin_dir, default.bin_dir),
            cache_dir: fill(loaded.cache_dir, default.cache_dir),
            database_dir: fill(loaded.database_dir, default.database_dir),
            notebook_dir: fill(loaded.notebook_dir, default.notebook_dir),
            session_dir: fill(loaded.session_dir, default.session_dir),
            workspace_dir: fill(loaded.workspace_dir, default.workspace_dir),
            files_dir: fill(loaded.files_dir, default.files_dir),
            logs_dir: fill(loaded.logs_dir, default.logs_dir),
            plugins_dir: fill(loaded.plugins_dir, default.plugins_dir),
            commands_dir: fill(loaded.commands_dir, default.commands_dir),
            skills_dir: fill(loaded.skills_dir, default.skills_dir),
            rules_dir: fill(loaded.rules_dir, default.rules_dir),
            hooks_dir: fill(loaded.hooks_dir, default.hooks_dir),
            database: if loaded.database.is_none() {
                default.database
            } else {
                loaded.database
            },
            node_server: if loaded.node_server.is_none() {
                default.node_server
            } else {
                loaded.node_server
            },
        }
    }
}

} // verus!
