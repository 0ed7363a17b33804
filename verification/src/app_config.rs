//! The configuration of the application: its values, their defaults and
//! the paths that follow from the configuration directory.
//!
//! Reading and writing the configuration file is the caller's business: a
//! setter here changes the value, and the caller saves it.

use vstd::prelude::*;
use crate::home::home_dir_text;
use crate::text::joined;

verus! {

/// The version that a new configuration records.
pub const APP_VERSION: &'static str = "0.1.0";

/// The port on which the node server listens by default.
pub const DEFAULT_NODE_SERVER_PORT: u16 = 4500;

/// The width of an embedding vector by default.
pub const DEFAULT_EMBEDDING_DIM: usize = 1024;

/// The settings of the node server.
#[derive(Debug)]
pub struct NodeServerConfig {
    pub port: u16,
    pub auto_start: bool,
}

impl Clone for NodeServerConfig {
    fn clone(&self) -> (copy: Self)
        ensures
            copy == *self,
    {
        NodeServerConfig { port: self.port, auto_start: self.auto_start }
    }
}

impl Default for NodeServerConfig {
    fn default() -> (config: Self)
        ensures
            config == (NodeServerConfig { port: DEFAULT_NODE_SERVER_PORT, auto_start: true }),
    {
        NodeServerConfig { port: DEFAULT_NODE_SERVER_PORT, auto_start: true }
    }
}

/// The settings of the Qdrant vector database.
#[derive(Debug)]
pub struct QdrantConfig {
    pub url: String,
    pub embedding_dim: usize,
}

impl Clone for QdrantConfig {
    fn clone(&self) -> (copy: Self)
        ensures
            copy == *self,
    {
        QdrantConfig { url: self.url.clone(), embedding_dim: self.embedding_dim }
    }
}

impl Default for QdrantConfig {
    fn default() -> (config: Self)
        ensures
            config.url@ == "http://localhost:6333"@,
            config.embedding_dim == DEFAULT_EMBEDDING_DIM,
    {
        QdrantConfig { url: "http://localhost:6333".to_owned(), embedding_dim: DEFAULT_EMBEDDING_DIM }
    }
}

/// The configuration of the application.
#[derive(Debug)]
pub struct AppConfig {
    pub version: String,
    pub node_server: NodeServerConfig,
    pub qdrant: QdrantConfig,
    pub log_level: String,
    pub workspaces_dir: String,
}

impl Clone for AppConfig {
    fn clone(&self) -> (copy: Self)
        ensures
            copy == *self,
    {
        AppConfig {
            version: self.version.clone(),
            node_server: self.node_server.clone(),
            qdrant: self.qdrant.clone(),
            log_level: self.log_level.clone(),
            workspaces_dir: self.workspaces_dir.clone(),
        }
    }
}

/// The configuration directory below the home directory `home`.
pub open spec fn config_dir_below(home: Seq<char>) -> Seq<char> {
    home + "/.config/open-context"@
}

impl AppConfig {
    /// Whether the configuration holds the defaults for the configuration
    /// directory `config_dir`.
    pub open spec fn is_default_in(self, config_dir: Seq<char>) -> bool {
        &&& self.version@ == APP_VERSION@
        &&& self.node_server == (NodeServerConfig { port: DEFAULT_NODE_SERVER_PORT, auto_start: true })
        &&& self.qdrant.url@ == "http://localhost:6333"@
        &&& self.qdrant.embedding_dim == DEFAULT_EMBEDDING_DIM
        &&& self.log_level@ == "info"@
        &&& self.workspaces_dir@ == config_dir + "/workspaces"@
    }

    /// The default configuration for the configuration directory
    /// `config_dir`.
    pub fn default_in(config_dir: &str) -> (config: Self)
        ensures
            config.is_default_in(config_dir@),
    {
        AppConfig {
            version: APP_VERSION.to_owned(),
            node_server: NodeServerConfig::default(),
            qdrant: QdrantConfig::default(),
            log_level: "info".to_owned(),
            workspaces_dir: joined(config_dir, "/workspaces"),
        }
    }

    /// The configuration directory of the current user:
    /// `.config/open-context` below the home directory. A user without a
    /// home directory has none.
    pub fn home_config_dir() -> (dir: Option<String>)
        ensures
            match dir {
                Some(d) => exists|home: Seq<char>| d@ == config_dir_below(home),
                None => true,
            },
    {
        match home_dir_text() {
            Some(home) => {
                let dir = AppConfig::config_dir_in(home.as_str());
                assert(dir@ == config_dir_below(home@));
                Some(dir)
            },
            None => None,
        }
    }

    /// The configuration directory of the current user, as
    /// [`home_config_dir`](Self::home_config_dir) gives it, or
    /// `.config/open-context` below `.` where the user has no home
    /// directory.
    pub fn default_config_dir() -> (dir: String)
        ensures
            exists|home: Seq<char>| dir@ == config_dir_below(home),
    {
        match AppConfig::home_config_dir() {
            Some(dir) => dir,
            None => AppConfig::config_dir_in("."),
        }
    }

    /// The configuration directory below the home directory `home`.
    pub fn config_dir_in(home: &str) -> (dir: String)
        ensures
            dir@ == config_dir_below(home@),
    {
        joined(home, "/.config/open-context")
    }

    /// The configuration file in the configuration directory `config_dir`.
    pub fn config_file_path(config_dir: &str) -> (path: String)
        ensures
            path@ == config_dir@ + "/config.json"@,
    {
        joined(config_dir, "/config.json")
    }

    /// Sets the port of the node server.
    pub fn set_node_server_port(&mut self, port: u16)
        ensures
            *final(self) == (AppConfig {
                node_server: NodeServerConfig { port, ..old(self).node_server },
                ..*old(self)
            }),
    {
        self.node_server.port = port;
    }

    /// Sets whether the node server starts with the application.
    pub fn set_node_server_auto_start(&mut self, auto_start: bool)
        ensures
            *final(self) == (AppConfig {
                node_server: NodeServerConfig { auto_start, ..old(self).node_server },
                ..*old(self)
            }),
    {
        self.node_server.auto_start = auto_start;
    }

    /// Sets where Qdrant is reached.
    pub fn set_qdrant_url(&mut self, url: String)
        ensures
            *final(self) == (AppConfig {
                qdrant: QdrantConfig { url, ..old(self).qdrant },
                ..*old(self)
            }),
    {
        self.qdrant.url = url;
    }

    /// Sets the width of an embedding vector.
    pub fn set_qdrant_embedding_dim(&mut self, dim: usize)
        ensures
            *final(self) == (AppConfig {
                qdrant: QdrantConfig { embedding_dim: dim, ..old(self).qdrant },
                ..*old(self)
            }),
    {
        self.qdrant.embedding_dim = dim;
    }

    /// Sets the log level.
    pub fn set_log_level(&mut self, level: String)
        ensures
            *final(self) == (AppConfig { log_level: level, ..*old(self) }),
    {
        self.log_level = level;
    }

    /// Sets the directory of the workspaces.
    pub fn set_workspaces_dir(&mut self, dir: String)
        ensures
            *final(self) == (AppConfig { workspaces_dir: dir, ..*old(self) }),
    {
        self.workspaces_dir = dir;
    }
}

impl Default for AppConfig {
    /// The defaults for the configuration directory of the current user.
    fn default() -> (config: Self)
        ensures
            exists|home: Seq<char>| config.is_default_in(config_dir_below(home)),
    {
        let dir = AppConfig::default_config_dir();
        let config = AppConfig::default_in(dir.as_str());
        proof {
            let home = choose|home: Seq<char>| dir@ == config_dir_below(home);
            assert(config.is_default_in(config_dir_below(home)));
        }
        config
    }
}

/// The one place that holds the configuration of the running application.
pub struct ConfigManager {
    config: AppConfig,
}

impl ConfigManager {
    /// The configuration that the manager holds.
    pub closed spec fn config(&self) -> AppConfig {
        self.config
    }

    /// A manager that holds `config`.
    pub fn new(config: AppConfig) -> (manager: Self)
        ensures
            manager.config() == config,
    {
        ConfigManager { config }
    }

    /// A copy of the configuration.
    pub fn get(&self) -> (config: AppConfig)
        ensures
            config == self.config(),
    {
        self.config.clone()
    }

    /// Lets `change` work on the configuration in place. What it has
    /// changed stays changed, also where it answers with an error; its
    /// answer is handed back. The caller saves the configuration after a
    /// good answer.
    pub fn update<F: FnOnce(&mut AppConfig) -> Result<(), String>>(&mut self, change: F) -> (done:
        Result<(), String>)
        requires
            forall|c: &mut AppConfig| *c == old(self).config() ==> #[trigger] change.requires((c,)),
        ensures
            exists|c: &mut AppConfig|
                *c == old(self).config() && *final(c) == final(self).config()
                    && #[trigger] change.ensures((c,), done),
    {
        change(&mut self.config)
    }

    /// Replaces the configuration by `loaded`, the one that the caller read
    /// from the configuration file.
    pub fn reload(&mut self, loaded: AppConfig)
        ensures
            final(self).config() == loaded,
    {
        self.config = loaded;
    }

    /// Replaces the configuration by `loaded`, the one that the caller read
    /// from another configuration directory.
    pub fn change_config_dir(&mut self, loaded: AppConfig)
        ensures
            final(self).config() == loaded,
    {
        self.reload(loaded);
    }
}

impl Default for ConfigManager {
    /// A manager that holds the default configuration of the current user.
    fn default() -> (manager: Self)
        ensures
            exists|home: Seq<char>| manager.config().is_default_in(config_dir_below(home)),
    {
        ConfigManager::new(AppConfig::default())
    }
}

} // verus!
