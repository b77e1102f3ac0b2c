use vstd::prelude::*;
use vstd::string::StringExecFns;

verus! {

/// Settings read once at startup: the port to listen on and the
/// notification endpoints that receive every alert.
pub struct Config {
    pub port: String,
    pub bark_notify_urls: Vec<String>,
}

/// The address the webhook server binds: every interface, on `port`.
pub open spec fn listen_address_spec(port: Seq<char>) -> Seq<char> {
    "0.0.0.0:"@ + port
}

impl Config {
    /// The socket address string to bind the inbound server to.
    pub fn listen_address(&self) -> (r: String)
        ensures
            r@ == listen_address_spec(self.port@),
    {
        String::from_str("0.0.0.0:").concat(self.port.as_str())
    }
}

} // verus!
