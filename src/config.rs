//! Settings of the relay, with their defaults.

use vstd::prelude::*;

verus! {

/// Where and as whom to connect.
#[derive(Clone, Debug)]
pub struct RawQuery {
    pub server: Option<String>,
    pub port: Option<u16>,
    pub user: String,
    pub password: String,
}

impl RawQuery {
    /// The host, `127.0.0.1` by default.
    pub fn server(&self) -> (r: String)
        ensures
            match self.server {
                Some(s) => r@ == s@,
                None => r@ == "127.0.0.1"@,
            },
    {
        match &self.server {
            Some(s) => s.clone(),
            None => String::from_str("127.0.0.1"),
        }
    }

    /// The port, 10011 by default.
    pub fn port(&self) -> (r: u16)
        ensures
            r == match self.port {
                Some(p) => p,
                None => 10011,
            },
    {
        match self.port {
            Some(p) => p,
            None => 10011,
        }
    }

    pub fn user(&self) -> (r: &str)
        ensures
            r@ == self.user@,
    {
        self.user.as_str()
    }

    pub fn password(&self) -> (r: &str)
        ensures
            r@ == self.password@,
    {
        self.password.as_str()
    }
}

/// Which virtual server to select, and whom not to report.
#[derive(Clone, Debug)]
pub struct Server {
    pub server_id: Option<i64>,
    pub ignore_user: Option<Vec<String>>,
}

impl Server {
    /// The server id, 1 by default.
    pub fn server_id(&self) -> (r: i64)
        ensures
            r == match self.server_id {
                Some(i) => i,
                None => 1,
            },
    {
        match self.server_id {
            Some(i) => i,
            None => 1,
        }
    }

    /// The ignore list, empty by default.
    pub fn ignore_user_name(&self) -> (r: Vec<String>)
        ensures
            match self.ignore_user {
                Some(v) => r.len() == v.len() && forall|i: int| 0 <= i < v.len() ==> r@[i]@ == v@[i]@,
                None => r.len() == 0,
            },
    {
        match &self.ignore_user {
            Some(v) => {
                let mut out: Vec<String> = Vec::new();
                let mut i: usize = 0;
                while i < v.len()
                    invariant
                        i <= v.len(),
                        out.len() == i,
                        forall|j: int| 0 <= j < i ==> out@[j]@ == v@[j]@,
                    decreases v.len() - i,
                {
                    out.push(v[i].clone());
                    i += 1;
                }
                out
            },
            None => Vec::new(),
        }
    }
}

/// Timing.
#[derive(Clone, Debug)]
pub struct Misc {
    pub interval: Option<u64>,
}

impl Misc {
    /// The pause between polls, 20 by default.
    pub fn interval(&self) -> (r: u64)
        ensures
            r == match self.interval {
                Some(i) => i,
                None => 20,
            },
    {
        match self.interval {
            Some(i) => i,
            None => 20,
        }
    }
}

/// The notification sink.
#[derive(Clone, Debug)]
pub struct Telegram {
    pub api_key: String,
    pub api_server: Option<String>,
    pub target: i64,
}

impl Telegram {
    pub fn api_key(&self) -> (r: &str)
        ensures
            r@ == self.api_key@,
    {
        self.api_key.as_str()
    }

    /// The endpoint, the public bot API by default.
    pub fn api_server(&self) -> (r: String)
        ensures
            match self.api_server {
                Some(s) => r@ == s@,
                None => r@ == "https://api.telegram.org/"@,
            },
    {
        if let Some(server) = &self.api_server {
            return server.clone();
        }
        String::from_str("https://api.telegram.org/")
    }

    pub fn target(&self) -> (r: i64)
        ensures
            r == self.target,
    {
        self.target
    }
}

/// All settings.
#[derive(Clone, Debug)]
pub struct Config {
    pub server: Server,
    pub misc: Misc,
    pub telegram: Telegram,
    pub raw_query: RawQuery,
}

impl Config {
    pub fn server(&self) -> (r: &Server)
        ensures
            *r == self.server,
    {
        &self.server
    }

    pub fn misc(&self) -> (r: &Misc)
        ensures
            *r == self.misc,
    {
        &self.misc
    }

    pub fn raw_query(&self) -> (r: &RawQuery)
        ensures
            *r == self.raw_query,
    {
        &self.raw_query
    }

    pub fn telegram(&self) -> (r: &Telegram)
        ensures
            *r == self.telegram,
    {
        &self.telegram
    }
}

} // verus!
