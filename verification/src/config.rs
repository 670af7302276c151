use vstd::prelude::*;
use vstd::string::StringExecFns;

verus! {

/// Address and port the HTTP front end binds to.
#[derive(Debug)]
pub struct HttpServer {
    pub address: String,
    pub port: u16,
}

/// Connection coordinates of the source-of-record store.
#[derive(Debug)]
pub struct Database {
    pub username: String,
    pub password: String,
    pub host: String,
    pub port: String,
    pub database: String,
}

/// Connection coordinates of the cache backend: host, port, logical database
/// index, and a connection timeout in seconds.
#[derive(Debug)]
pub struct Redis {
    pub host: String,
    pub port: String,
    pub database: String,
    pub timeout: u64,
}

/// The whole application configuration.
#[derive(Debug)]
pub struct AppConfig {
    pub http_server: HttpServer,
    pub database: Database,
    pub redis: Redis,
}

impl Default for HttpServer {
    fn default() -> (r: HttpServer)
        ensures
            r.address@ == Seq::<char>::empty(),
            r.port == 0u16,
    {
        HttpServer { address: String::new(), port: 0 }
    }
}

impl Default for Database {
    fn default() -> (r: Database)
        ensures
            r.username@ == Seq::<char>::empty(),
            r.password@ == Seq::<char>::empty(),
            r.host@ == Seq::<char>::empty(),
            r.port@ == Seq::<char>::empty(),
            r.database@ == Seq::<char>::empty(),
    {
        Database {
            username: String::new(),
            password: String::new(),
            host: String::new(),
            port: String::new(),
            database: String::new(),
        }
    }
}

impl Default for Redis {
    fn default() -> (r: Redis)
        ensures
            r.host@ == Seq::<char>::empty(),
            r.port@ == Seq::<char>::empty(),
            r.database@ == Seq::<char>::empty(),
            r.timeout == 0u64,
    {
        Redis { host: String::new(), port: String::new(), database: String::new(), timeout: 0 }
    }
}

impl Default for AppConfig {
    fn default() -> (r: AppConfig)
        ensures
            r.http_server.address@ == Seq::<char>::empty(),
            r.http_server.port == 0u16,
            r.database.username@ == Seq::<char>::empty(),
            r.database.password@ == Seq::<char>::empty(),
            r.database.host@ == Seq::<char>::empty(),
            r.database.port@ == Seq::<char>::empty(),
            r.database.database@ == Seq::<char>::empty(),
            r.redis.host@ == Seq::<char>::empty(),
            r.redis.port@ == Seq::<char>::empty(),
            r.redis.database@ == Seq::<char>::empty(),
            r.redis.timeout == 0u64,
    {
        AppConfig {
            http_server: HttpServer::default(),
            database: Database::default(),
            redis: Redis::default(),
        }
    }
}

/// The address the cache backend is reached at, composed from host, port
/// and logical database index.
pub open spec fn redis_url_spec(host: Seq<char>, port: Seq<char>, database: Seq<char>) -> Seq<
    char,
> {
    "redis://"@ + host + ":"@ + port + "/"@ + database
}

/// Builds the cache backend's connection address from its configuration.
pub fn redis_url(config: &Redis) -> (s: String)
    ensures
        s@ == redis_url_spec(config.host@, config.port@, config.database@),
{
    let mut s = "redis://".to_owned();
    s.append(config.host.as_str());
    s.append(":");
    s.append(config.port.as_str());
    s.append("/");
    s.append(config.database.as_str());
    s
}

/// The address the source-of-record store is reached at, composed from the
/// credentials, host and database name.
pub open spec fn postgres_url_spec(
    username: Seq<char>,
    password: Seq<char>,
    host: Seq<char>,
    database: Seq<char>,
) -> Seq<char> {
    "postgres://"@ + username + ":"@ + password + "@"@ + host + "/"@ + database
}

/// Builds the store backend's connection address from its configuration.
pub fn postgres_url(config: &Database) -> (s: String)
    ensures
        s@ == postgres_url_spec(config.username@, config.password@, config.host@, config.database@),
{
    let mut s = "postgres://".to_owned();
    s.append(config.username.as_str());
    s.append(":");
    s.append(config.password.as_str());
    s.append("@");
    s.append(config.host.as_str());
    s.append("/");
    s.append(config.database.as_str());
    s
}

} // verus!
