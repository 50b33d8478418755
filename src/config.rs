//! Startup configuration: the TLS key material and the addresses to listen on.

use vstd::prelude::*;

use crate::lifecycle::Protocol;

verus! {

/// The DER bytes of the TLS private key and certificate chain, where given.
pub struct TlsConfig {
    pub tls_priv_key: Option<Vec<u8>>,
    pub tls_pub_cert: Option<Vec<Vec<u8>>>,
}

/// Why a configuration cannot be served.
#[derive(Clone, Copy, PartialEq, Eq, Structural, Debug)]
pub enum ConfigError {
    /// A private key without a certificate chain, or a chain without a key.
    PartialTls,
    /// Secure addresses were asked for, but no key and certificate chain given.
    SecureWithoutTls,
}

/// An IP address, as the number that its octets spell, most significant first.
#[derive(Clone, Copy, PartialEq, Eq, Structural, Debug)]
pub enum IpAddress {
    V4(u32),
    V6(u128),
}

/// An IP address and a port.
#[derive(Clone, Copy, PartialEq, Eq, Structural, Debug)]
pub struct SocketAddress {
    pub ip: IpAddress,
    pub port: u16,
}

/// An address to listen on, with the protocol spoken there.
#[derive(Clone, Copy, PartialEq, Eq, Structural, Debug)]
pub struct BindAddress {
    pub addr: SocketAddress,
    pub protocol: Protocol,
}

/// The addresses to listen on, by protocol.
pub struct BindConfig {
    pub https_socket: Vec<SocketAddress>,
    pub http_socket: Vec<SocketAddress>,
}

/// Each address of `addrs`, in order, tagged with `protocol`.
pub open spec fn tagged(addrs: Seq<SocketAddress>, protocol: Protocol) -> Seq<BindAddress> {
    Seq::new(addrs.len(), |i: int| BindAddress { addr: addrs[i], protocol })
}

impl TlsConfig {
    /// Both the key and the certificate chain are given.
    pub open spec fn complete(&self) -> bool {
        self.tls_priv_key.is_some() && self.tls_pub_cert.is_some()
    }

    /// Exactly one of the key and the certificate chain is given.
    pub open spec fn partial(&self) -> bool {
        self.tls_priv_key.is_some() != self.tls_pub_cert.is_some()
    }

    pub fn is_some(&self) -> (r: bool)
        ensures
            r == self.complete(),
    {
        self.tls_priv_key.is_some() && self.tls_pub_cert.is_some()
    }

    /// Whether TLS is enabled: `Ok(true)` with both parts, `Ok(false)` with
    /// neither, and an error with only one.
    pub fn tls_enabled(&self) -> (r: Result<bool, ConfigError>)
        ensures
            self.partial() <==> r == Err::<bool, ConfigError>(ConfigError::PartialTls),
            !self.partial() ==> r == Ok::<bool, ConfigError>(self.complete()),
    {
        if self.tls_priv_key.is_some() != self.tls_pub_cert.is_some() {
            Err(ConfigError::PartialTls)
        } else {
            Ok(self.is_some())
        }
    }
}

impl BindConfig {
    /// The addresses to bind: every plain one, then every secure one, each in
    /// the order given. Refused, before anything is bound, where the TLS
    /// settings are partial, or where secure addresses come without them.
    pub fn plan(&self, tls: &TlsConfig) -> (r: Result<Vec<BindAddress>, ConfigError>)
        ensures
            tls.partial() ==> r == Err::<Vec<BindAddress>, ConfigError>(ConfigError::PartialTls),
            !tls.partial() && !tls.complete() && self.https_socket.len() > 0
                ==> r == Err::<Vec<BindAddress>, ConfigError>(ConfigError::SecureWithoutTls),
            r is Ok <==> !tls.partial() && (tls.complete() || self.https_socket.len() == 0),
            r matches Ok(v) ==> v@ == tagged(self.http_socket@, Protocol::Plain) + tagged(
                self.https_socket@,
                Protocol::Secure,
            ),
    {
        let enabled = match tls.tls_enabled() {
            Ok(e) => e,
            Err(e) => return Err(e),
        };
        if !enabled && self.https_socket.len() > 0 {
            return Err(ConfigError::SecureWithoutTls);
        }
        let mut out: Vec<BindAddress> = Vec::new();
        let mut i: usize = 0;
        while i < self.http_socket.len()
            invariant
                i <= self.http_socket.len(),
                out@ == tagged(self.http_socket@.take(i as int), Protocol::Plain),
            decreases self.http_socket.len() - i,
        {
            out.push(BindAddress { addr: self.http_socket[i], protocol: Protocol::Plain });
            i = i + 1;
            assert(out@ =~= tagged(self.http_socket@.take(i as int), Protocol::Plain));
        }
        assert(self.http_socket@.take(i as int) =~= self.http_socket@);
        let mut j: usize = 0;
        while j < self.https_socket.len()
            invariant
                j <= self.https_socket.len(),
                out@ == tagged(self.http_socket@, Protocol::Plain) + tagged(
                    self.https_socket@.take(j as int),
                    Protocol::Secure,
                ),
            decreases self.https_socket.len() - j,
        {
            out.push(BindAddress { addr: self.https_socket[j], protocol: Protocol::Secure });
            j = j + 1;
            assert(out@ =~= tagged(self.http_socket@, Protocol::Plain) + tagged(
                self.https_socket@.take(j as int),
                Protocol::Secure,
            ));
        }
        assert(self.https_socket@.take(j as int) =~= self.https_socket@);
        Ok(out)
    }
}

} // verus!
