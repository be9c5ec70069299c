use vstd::prelude::*;

verus! {

/// Where the backend is and how to sign in to it.
#[derive(Debug)]
pub struct MssqlConfig {
    pub host: String,
    pub port: u16,
    pub username: String,
    pub password: String,
    pub database: String,
    pub trust_cert: bool,
}

impl Clone for MssqlConfig {
    fn clone(&self) -> (copy: MssqlConfig)
        ensures
            copy == *self,
    {
        MssqlConfig {
            host: self.host.clone(),
            port: self.port,
            username: self.username.clone(),
            password: self.password.clone(),
            database: self.database.clone(),
            trust_cert: self.trust_cert,
        }
    }
}

impl MssqlConfig {
    /// The configuration for the backend at `host` and `port`, signed in to
    /// as `username` with `password`, on `database`. With `trust_cert` the
    /// backend's certificate is taken without being checked.
    pub fn new(
        host: &str,
        port: u16,
        username: &str,
        password: &str,
        database: &str,
        trust_cert: bool,
    ) -> (config: MssqlConfig)
        ensures
            config.host@ == host@,
            config.port == port,
            config.username@ == username@,
            config.password@ == password@,
            config.database@ == database@,
            config.trust_cert == trust_cert,
    {
        MssqlConfig {
            host: host.to_owned(),
            port,
            username: username.to_owned(),
            password: password.to_owned(),
            database: database.to_owned(),
            trust_cert,
        }
    }
}

} // verus!
