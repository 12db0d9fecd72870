//! Settings of the server, their defaults and the rules they must meet.

use vstd::prelude::*;
use vstd::string::*;
use crate::error::AppError;

verus! {

/// Whether the server sits behind a proxy, and in which header the proxy passes the
/// client's address on.
#[derive(Debug, PartialEq, Eq)]
pub struct ProxyConfig {
    pub enabled: bool,
    pub ip_header: String,
}

#[derive(Debug, PartialEq, Eq)]
pub struct ServerConfig {
    pub host: String,
    pub port: u16,
    pub proxy: ProxyConfig,
}

#[derive(Debug, PartialEq, Eq)]
pub struct StorageConfig {
    pub memes_dir: String,
}

/// The bounds of the cache of original bytes: how many entries, and for how long.
#[derive(Debug, PartialEq, Eq)]
pub struct CacheConfig {
    pub max_size: u64,
    pub ttl_secs: u64,
}

#[derive(Debug, PartialEq, Eq)]
pub struct LoggingConfig {
    pub directory: String,
    pub file_prefix: String,
}

#[derive(Debug, PartialEq, Eq)]
pub struct Config {
    pub server: ServerConfig,
    pub storage: StorageConfig,
    pub cache: CacheConfig,
    pub logging: LoggingConfig,
}

/// Where the settings come from when the server starts.
#[derive(Debug, Clone, Copy, PartialEq, Eq, Structural)]
pub enum ConfigSource {
    /// The settings file is there and is read as it is.
    Existing,
    /// The example file is copied to the settings file first.
    CopyExample,
    /// The defaults are written to the settings file first.
    WriteDefault,
}

impl Clone for ProxyConfig {
    fn clone(&self) -> (r: Self)
        ensures
            r == *self,
    {
        ProxyConfig { enabled: self.enabled, ip_header: self.ip_header.clone() }
    }
}

impl Clone for ServerConfig {
    fn clone(&self) -> (r: Self)
        ensures
            r == *self,
    {
        ServerConfig { host: self.host.clone(), port: self.port, proxy: self.proxy.clone() }
    }
}

impl Clone for StorageConfig {
    fn clone(&self) -> (r: Self)
        ensures
            r == *self,
    {
        StorageConfig { memes_dir: self.memes_dir.clone() }
    }
}

impl Clone for CacheConfig {
    fn clone(&self) -> (r: Self)
        ensures
            r == *self,
    {
        CacheConfig { max_size: self.max_size, ttl_secs: self.ttl_secs }
    }
}

impl Clone for LoggingConfig {
    fn clone(&self) -> (r: Self)
        ensures
            r == *self,
    {
        LoggingConfig { directory: self.directory.clone(), file_prefix: self.file_prefix.clone() }
    }
}

impl Clone for Config {
    fn clone(&self) -> (r: Self)
        ensures
            r == *self,
    {
        Config {
            server: self.server.clone(),
            storage: self.storage.clone(),
            cache: self.cache.clone(),
            logging: self.logging.clone(),
        }
    }
}

impl Default for LoggingConfig {
    fn default() -> (r: Self)
        ensures
            r.directory@ == "logs"@,
            r.file_prefix@ == "jiangtokoto"@,
    {
        LoggingConfig {
            directory: String::from_str("logs"),
            file_prefix: String::from_str("jiangtokoto"),
        }
    }
}

impl Default for ProxyConfig {
    fn default() -> (r: Self)
        ensures
            !r.enabled,
            r.ip_header@ == "x-forwarded-for"@,
    {
        ProxyConfig { enabled: false, ip_header: String::from_str("x-forwarded-for") }
    }
}

impl Default for Config {
    fn default() -> (r: Self)
        ensures
            r.server.host@ == "0.0.0.0"@,
            r.server.port == 3001,
            !r.server.proxy.enabled,
            r.server.proxy.ip_header@ == "x-forwarded-for"@,
            r.storage.memes_dir@ == "assets/jiangtokoto-images/images"@,
            r.cache.max_size == 100,
            r.cache.ttl_secs == 300,
            r.logging.directory@ == "logs"@,
            r.logging.file_prefix@ == "jiangtokoto"@,
            r.is_valid(),
    {
        proof {
            reveal_strlit("0.0.0.0");
            reveal_strlit("assets/jiangtokoto-images/images");
        }
        Config {
            server: ServerConfig {
                host: String::from_str("0.0.0.0"),
                port: 3001,
                proxy: ProxyConfig::default(),
            },
            storage: StorageConfig {
                memes_dir: String::from_str("assets/jiangtokoto-images/images"),
            },
            cache: CacheConfig { max_size: 100, ttl_secs: 300 },
            logging: LoggingConfig::default(),
        }
    }
}

/// The source of the settings: the file itself where it exists, else the example beside
/// it, else the defaults.
pub open spec fn source_for(config_exists: bool, example_exists: bool) -> ConfigSource {
    if config_exists {
        ConfigSource::Existing
    } else if example_exists {
        ConfigSource::CopyExample
    } else {
        ConfigSource::WriteDefault
    }
}

pub fn config_source(config_exists: bool, example_exists: bool) -> (s: ConfigSource)
    ensures
        s == source_for(config_exists, example_exists),
{
    if config_exists {
        ConfigSource::Existing
    } else if example_exists {
        ConfigSource::CopyExample
    } else {
        ConfigSource::WriteDefault
    }
}

impl Config {
    /// The first rule that the settings break, by its message; `None` where they break
    /// none. The rules are taken in this order: the cache holds at least one entry, an
    /// entry lives at least a second, the port is not zero, the host and the asset
    /// directory are not empty.
    pub open spec fn first_violation(&self) -> Option<Seq<char>> {
        if self.cache.max_size == 0 {
            Some("Cache max_size must be greater than 0"@)
        } else if self.cache.ttl_secs == 0 {
            Some("Cache TTL must be greater than 0"@)
        } else if self.server.port == 0 {
            Some("Server port must be greater than 0"@)
        } else if self.server.host@.len() == 0 {
            Some("Server host cannot be empty"@)
        } else if self.storage.memes_dir@.len() == 0 {
            Some("Memes directory path cannot be empty"@)
        } else {
            None
        }
    }

    /// Whether the settings meet every rule.
    pub open spec fn is_valid(&self) -> bool {
        &&& self.cache.max_size > 0
        &&& self.cache.ttl_secs > 0
        &&& self.server.port > 0
        &&& self.server.host@.len() > 0
        &&& self.storage.memes_dir@.len() > 0
    }

    /// Accepts the settings, or names the first rule they break.
    pub fn validate(&self) -> (r: Result<(), AppError>)
        ensures
            r is Ok <==> self.is_valid(),
            r is Ok <==> self.first_violation() is None,
            r matches Err(e) ==> e matches AppError::Internal(m) && self.first_violation()
                == Some(m@),
    {
        if self.cache.max_size == 0 {
            return Err(
                AppError::Internal(String::from_str("Cache max_size must be greater than 0")),
            );
        }
        if self.cache.ttl_secs == 0 {
            return Err(AppError::Internal(String::from_str("Cache TTL must be greater than 0")));
        }
        if self.server.port == 0 {
            return Err(
                AppError::Internal(String::from_str("Server port must be greater than 0")),
            );
        }
        if self.server.host.as_str().is_empty() {
            return Err(AppError::Internal(String::from_str("Server host cannot be empty")));
        }
        if self.storage.memes_dir.as_str().is_empty() {
            return Err(
                AppError::Internal(String::from_str("Memes directory path cannot be empty")),
            );
        }
        Ok(())
    }
}

} // verus!
