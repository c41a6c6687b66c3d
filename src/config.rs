use vstd::prelude::*;
use vstd::string::StringExecFns;

verus! {

/// Port both the server and the client use unless configured otherwise.
pub const DEFAULT_PORT: u16 = 50051;

/// Where the server listens.
#[derive(Clone, Debug)]
pub struct ServerConfig {
    pub host: String,
    pub port: u16,
}

/// Where the client connects.
#[derive(Clone, Debug)]
pub struct ClientConfig {
    pub host: String,
    pub port: u16,
}

/// The resolved endpoints of both sides.
#[derive(Clone, Debug)]
pub struct Config {
    pub server: ServerConfig,
    pub client: ClientConfig,
}

/// Whether `c` is the built-in configuration, with the client host `host`.
pub open spec fn is_default_with_host(c: Config, host: Seq<char>) -> bool {
    &&& c.server.host@ == "0.0.0.0"@
    &&& c.server.port == DEFAULT_PORT
    &&& c.client.host@ == host
    &&& c.client.port == DEFAULT_PORT
}

impl Default for Config {
    /// Listen on every interface and reach the server by its service name,
    /// both on the default port.
    fn default() -> (r: Self)
        ensures
            is_default_with_host(r, "grpc-finance-server"@),
    {
        Config {
            server: ServerConfig { host: String::from_str("0.0.0.0"), port: DEFAULT_PORT },
            client: ClientConfig {
                host: String::from_str("grpc-finance-server"),
                port: DEFAULT_PORT,
            },
        }
    }
}

impl Config {
    /// This configuration with the client host replaced by `host`, when
    /// there is one.
    pub fn with_client_host(self, host: Option<String>) -> (r: Config)
        ensures
            r.server == self.server,
            r.client.port == self.client.port,
            match host {
                Some(h) => r.client.host == h,
                None => r.client.host == self.client.host,
            },
    {
        match host {
            Some(h) => Config {
                server: self.server,
                client: ClientConfig { host: h, port: self.client.port },
            },
            None => self,
        }
    }

    /// The configuration in effect: the one read from a file if there was a
    /// file, else the built-in one; then the client-host override, which
    /// always wins.
    pub fn resolve(from_file: Option<Config>, client_host: Option<String>) -> (r: Config)
        ensures
            match from_file {
                Some(f) => r.server == f.server && r.client.port == f.client.port,
                None => r.server.host@ == "0.0.0.0"@ && r.server.port == DEFAULT_PORT
                    && r.client.port == DEFAULT_PORT,
            },
            match client_host {
                Some(h) => r.client.host == h,
                None => match from_file {
                    Some(f) => r.client.host == f.client.host,
                    None => r.client.host@ == "grpc-finance-server"@,
                },
            },
    {
        let base = match from_file {
            Some(f) => f,
            None => Config::default(),
        };
        base.with_client_host(client_host)
    }
}

} // verus!
