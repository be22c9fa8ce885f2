//! Runtime configuration of the panel.

use vstd::prelude::*;
use crate::text;

verus! {

/// Runtime configuration. Every value can come from the environment, so the panel can
/// run from a systemd unit without arguments.
#[derive(Debug, Clone)]
pub struct Config {
    /// Address the HTTP server binds to.
    pub bind: String,
    /// SQLite database file. Created if missing.
    pub database: String,
    /// Directory served at /static.
    pub static_dir: String,
    /// Bootstrap admin account created on first run.
    pub admin_email: String,
    /// Bootstrap admin password. A random one is generated and logged if unset.
    pub admin_password: Option<String>,
    /// Insert an example server + sites on first run so the UI is explorable
    /// before any real node is attached.
    pub demo_data: bool,
    /// Number of concurrent job workers.
    pub workers: usize,
    /// Mark cookies as Secure. Turn off only for local plain-HTTP development.
    pub secure_cookies: bool,
    /// The mail server, if there is one.
    pub smtp_host: Option<String>,
    pub smtp_port: u16,
    pub smtp_user: Option<String>,
    pub smtp_password: Option<String>,
    pub smtp_from: Option<String>,
}

impl Default for Config {
    fn default() -> (c: Config)
        ensures
            c.bind@ == "127.0.0.1:8080"@,
            c.database@ == "data/panel.db"@,
            c.static_dir@ == "static"@,
            c.admin_email@ == "admin@localhost"@,
            c.admin_password is None,
            c.demo_data,
            c.workers == 4,
            !c.secure_cookies,
            c.smtp_host is None,
            c.smtp_port == 587,
            c.smtp_user is None,
            c.smtp_password is None,
            c.smtp_from is None,
    {
        Config {
            bind: "127.0.0.1:8080".to_owned(),
            database: "data/panel.db".to_owned(),
            static_dir: "static".to_owned(),
            admin_email: "admin@localhost".to_owned(),
            admin_password: None,
            demo_data: true,
            workers: 4,
            secure_cookies: false,
            smtp_host: None,
            smtp_port: 587,
            smtp_user: None,
            smtp_password: None,
            smtp_from: None,
        }
    }
}

impl Config {
    /// How many workers are started: at least one.
    pub fn worker_count(&self) -> (n: usize)
        ensures
            n == if self.workers == 0 {
                1
            } else {
                self.workers
            },
    {
        if self.workers == 0 {
            1
        } else {
            self.workers
        }
    }

    /// The mail server that is configured, if any.
    pub open spec fn spec_mail_host(self) -> Option<Seq<char>> {
        match self.smtp_host {
            Some(h) => if h@.len() == 0 {
                None
            } else {
                Some(h@)
            },
            None => None,
        }
    }

    /// The mail server that is configured, if any.
    pub fn mail_host(&self) -> (r: Option<String>)
        ensures
            text::text_opt(r) == self.spec_mail_host(),
    {
        match &self.smtp_host {
            Some(h) => if h.as_str().is_empty() {
                None
            } else {
                Some(h.clone())
            },
            None => None,
        }
    }
}

} // verus!
