use vstd::prelude::*;

verus! {

/// The settings of the service, read from the environment.
#[derive(Debug, Clone)]
pub struct Environment {
    pub url: String,
    pub port: u16,
    pub database_url: String,
    pub jwt_secret: String,
    pub jwt_duration: i64,
}

impl Environment {
    /// The address to listen on: the host and the port.
    pub fn socket_addrs(&self) -> (res: (String, u16))
        ensures
            res.0@ == self.url@,
            res.1 == self.port,
    {
        (self.url.clone(), self.port)
    }
}

} // verus!
