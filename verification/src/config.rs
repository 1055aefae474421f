//! The daemon's settings, as given on the command line or in the environment.

use vstd::prelude::*;

verus! {

/// Settings of the daemon.
pub struct Config {
    /// `host:port` of the Bitcoin node's RPC interface.
    pub bitcoin_rpc_url: String,
    pub bitcoin_rpc_user: String,
    pub bitcoin_rpc_pass: String,
    /// ZMQ endpoint of the Bitcoin node.
    pub zmq_addr: String,
    pub tor_control_port: u16,
    pub tor_auth_password: String,
    /// Seconds between two syncs of the offer book.
    pub sync_interval_secs: u64,
    /// Address the HTTP server listens on.
    pub listen_addr: String,
    /// Directory of the frontend's static files.
    pub static_dir: String,
    /// Log filter directive (e.g. "debug", "tower_http=debug,info").
    pub log_filter: String,
    /// Disable ANSI colors in log output.
    pub no_color: bool,
}

impl Clone for Config {
    fn clone(&self) -> (res: Self)
        ensures
            res == *self,
    {
        Config {
            bitcoin_rpc_url: self.bitcoin_rpc_url.clone(),
            bitcoin_rpc_user: self.bitcoin_rpc_user.clone(),
            bitcoin_rpc_pass: self.bitcoin_rpc_pass.clone(),
            zmq_addr: self.zmq_addr.clone(),
            tor_control_port: self.tor_control_port,
            tor_auth_password: self.tor_auth_password.clone(),
            sync_interval_secs: self.sync_interval_secs,
            listen_addr: self.listen_addr.clone(),
            static_dir: self.static_dir.clone(),
            log_filter: self.log_filter.clone(),
            no_color: self.no_color,
        }
    }
}

} // verus!
