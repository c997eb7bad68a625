//! TCP wrapped in TLS, with client-certificate material from a certificate
//! directory.

use super::Transport;
use vstd::prelude::*;
use vstd::string::StringExecFns;

verus! {

/// A daemon listening on a TLS-protected TCP host.
#[derive(Debug, Clone)]
pub struct Tls {
    host: String,
}

impl Tls {
    /// A transport to the daemon at `host`.
    pub fn new(host: &str) -> (transport: Tls)
        ensures
            transport.host() == host@,
    {
        Tls { host: host.to_owned() }
    }

    /// The host that requests go to.
    pub closed spec fn host(&self) -> Seq<char> {
        self.host@
    }
}

impl Transport for Tls {
    open spec fn address(&self, endpoint: Seq<char>) -> Seq<char> {
        self.host() + endpoint
    }

    fn uri(&self, endpoint: &str) -> (uri: String) {
        self.host.clone().concat(endpoint)
    }
}

/// The files and the cipher policy that a TLS connector is set up with.
#[derive(Debug, Clone)]
pub struct TlsMaterial {
    /// The cipher list handed to the TLS library.
    pub ciphers: String,
    /// Path of the client certificate, in PEM.
    pub cert: String,
    /// Path of the client's private key, in PEM.
    pub key: String,
    /// Path of the CA bundle to verify the daemon against, when verification
    /// is asked for.
    pub ca: Option<String>,
}

impl TlsMaterial {
    /// The material found under the certificate directory `certs`:
    /// `cert.pem` and `key.pem` always, `ca.pem` only if `verify` is set. The
    /// cipher policy is the TLS library's default list.
    pub fn from_cert_path(certs: &str, verify: bool) -> (material: TlsMaterial)
        ensures
            material.ciphers@ == "DEFAULT"@,
            material.cert@ == certs@ + "/cert.pem"@,
            material.key@ == certs@ + "/key.pem"@,
            match material.ca {
                Some(ca) => verify && ca@ == certs@ + "/ca.pem"@,
                None => !verify,
            },
    {
        let ca = if verify {
            Some(certs.to_owned().concat("/ca.pem"))
        } else {
            None
        };
        TlsMaterial {
            ciphers: String::from_str("DEFAULT"),
            cert: certs.to_owned().concat("/cert.pem"),
            key: certs.to_owned().concat("/key.pem"),
            ca,
        }
    }
}

} // verus!
