//! The security layer's context construction: the acceptor identity a server
//! loads once from PEM files, and the connector-role session a client runs its
//! handshake with. The handshake itself needs the live socket and runs in the
//! surrounding application; everything here works from plain values.

use crate::transport::TransportError;
use vstd::prelude::*;
use vstd::string::StrSliceExecFns;

verus! {

/// Whether a text holds a NUL character. The security library builds C
/// strings from the paths and the peer name it is handed, and no C string
/// can carry a NUL, so such inputs must be rejected before any call.
pub open spec fn has_nul_char(s: Seq<char>) -> bool {
    exists|i: int| 0 <= i < s.len() && s[i] == '\u{0}'
}

fn contains_nul(s: &str) -> (r: bool)
    ensures
        r == has_nul_char(s@),
{
    let n = s.unicode_len();
    let mut k: usize = 0;
    loop
        invariant
            k <= n && n == s@.len(),
            forall|t: int| 0 <= t < k ==> s@[t] != '\u{0}',
        ensures
            k <= n && n == s@.len(),
            k < n ==> s@[k as int] == '\u{0}',
            k == n ==> forall|t: int| 0 <= t < n ==> s@[t] != '\u{0}',
        decreases n - k,
    {
        if k == n {
            break ;
        }
        if s.get_char(k) == '\u{0}' {
            break ;
        }
        k = k + 1;
    }
    if k < n {
        proof {
            assert(has_nul_char(s@));
        }
        true
    } else {
        proof {
            assert(!has_nul_char(s@));
        }
        false
    }
}

#[verifier::external_type_specification]
#[verifier::external_body]
pub struct ExErrorStack(openssl::error::ErrorStack);

#[verifier::external_type_specification]
#[verifier::external_body]
pub struct ExSslAcceptorBuilder(openssl::ssl::SslAcceptorBuilder);

#[verifier::external_type_specification]
#[verifier::external_body]
pub struct ExSslAcceptor(openssl::ssl::SslAcceptor);

#[verifier::external_type_specification]
#[verifier::external_body]
pub struct ExSslConnectorBuilder(openssl::ssl::SslConnectorBuilder);

#[verifier::external_type_specification]
#[verifier::external_body]
pub struct ExSslConnector(openssl::ssl::SslConnector);

#[verifier::external_type_specification]
#[verifier::external_body]
pub struct ExConnectConfiguration(openssl::ssl::ConnectConfiguration);

#[verifier::external_type_specification]
#[verifier::external_body]
pub struct ExSsl(openssl::ssl::Ssl);

/// Relies on openssl's `SslAcceptor::mozilla_intermediate` with the DTLS
/// method: builds an acceptor-side context template, or reports the library's
/// error stack.
#[verifier::external_body]
fn dtls_acceptor_builder() -> (r: Result<
    openssl::ssl::SslAcceptorBuilder,
    openssl::error::ErrorStack,
>) {
    openssl::ssl::SslAcceptor::mozilla_intermediate(openssl::ssl::SslMethod::dtls())
}

/// Relies on openssl's `SslContextBuilder::set_private_key_file` with the PEM
/// file type: loads the private key at `path`, erring when the file is
/// missing or not valid PEM material. The path must hold no NUL character:
/// the binding builds a C string from it and panics otherwise.
#[verifier::external_body]
fn acceptor_set_private_key(
    builder: &mut openssl::ssl::SslAcceptorBuilder,
    path: &str,
) -> (r: Result<(), openssl::error::ErrorStack>)
    requires
        !has_nul_char(path@),
{
    builder.set_private_key_file(path, openssl::ssl::SslFiletype::PEM)
}

/// Relies on openssl's `SslContextBuilder::set_certificate_chain_file`: loads
/// the certificate chain at `path`, erring when the file is missing or not
/// valid PEM material. The path must hold no NUL character: the binding
/// builds a C string from it and panics otherwise.
#[verifier::external_body]
fn acceptor_set_cert_chain(
    builder: &mut openssl::ssl::SslAcceptorBuilder,
    path: &str,
) -> (r: Result<(), openssl::error::ErrorStack>)
    requires
        !has_nul_char(path@),
{
    builder.set_certificate_chain_file(path)
}

/// Relies on openssl's `SslAcceptorBuilder::build`: freezes the builder into
/// the reusable acceptor identity.
#[verifier::external_body]
fn acceptor_build(builder: openssl::ssl::SslAcceptorBuilder) -> (r: openssl::ssl::SslAcceptor) {
    builder.build()
}

/// Relies on openssl's `SslConnector::builder` with the DTLS method: builds a
/// connector-side context template.
#[verifier::external_body]
fn dtls_connector_builder() -> (r: Result<
    openssl::ssl::SslConnectorBuilder,
    openssl::error::ErrorStack,
>) {
    openssl::ssl::SslConnector::builder(openssl::ssl::SslMethod::dtls())
}

/// Relies on openssl's `SslConnectorBuilder::build`: freezes the builder into
/// a connector.
#[verifier::external_body]
fn connector_build(builder: openssl::ssl::SslConnectorBuilder) -> (r: openssl::ssl::SslConnector) {
    builder.build()
}

/// Relies on openssl's `SslConnector::configure`: derives a per-connection
/// configuration from the connector.
#[verifier::external_body]
fn connector_configure(connector: &openssl::ssl::SslConnector) -> (r: Result<
    openssl::ssl::ConnectConfiguration,
    openssl::error::ErrorStack,
>) {
    connector.configure()
}

/// Relies on openssl's `ConnectConfiguration::into_ssl`: fixes the peer name
/// the handshake will verify and yields the session the caller connects with.
/// The name must hold no NUL character: when it is no IP literal it is set as
/// the server-name indication through a C string, and the binding panics on a
/// NUL.
#[verifier::external_body]
fn configuration_into_ssl(
    configuration: openssl::ssl::ConnectConfiguration,
    domain: &str,
) -> (r: Result<openssl::ssl::Ssl, openssl::error::ErrorStack>)
    requires
        !has_nul_char(domain@),
{
    configuration.into_ssl(domain)
}

/// Load the server's long-lived acceptor identity from the configured
/// certificate chain and private key paths. Every failure here is a failure
/// to load that identity, so the only error is `CertLoadFailed`; the server
/// is never constructed around a half-loaded identity. A path holding a NUL
/// character can name no file and is rejected before the security library
/// sees it.
pub fn build_acceptor(cert_path: &str, key_path: &str) -> (r: Result<
    openssl::ssl::SslAcceptor,
    TransportError,
>)
    ensures
        r is Err ==> r->Err_0 is CertLoadFailed,
        has_nul_char(cert_path@) || has_nul_char(key_path@) ==> r is Err,
{
    if contains_nul(cert_path) || contains_nul(key_path) {
        return Err(TransportError::CertLoadFailed);
    }
    let mut builder = match dtls_acceptor_builder() {
        Ok(b) => b,
        Err(_) => {
            return Err(TransportError::CertLoadFailed);
        },
    };
    match acceptor_set_private_key(&mut builder, key_path) {
        Ok(u) => u,
        Err(_) => {
            return Err(TransportError::CertLoadFailed);
        },
    };
    match acceptor_set_cert_chain(&mut builder, cert_path) {
        Ok(u) => u,
        Err(_) => {
            return Err(TransportError::CertLoadFailed);
        },
    };
    Ok(acceptor_build(builder))
}

/// Build the connector-role session a client will run its handshake with,
/// verifying the peer under `domain`. A failure to build the context is fatal
/// to the handshake attempt, so it surfaces as `HandshakeFailed`, carrying
/// one of four fixed reasons, one per failing stage; no stream exists until
/// the handshake itself completes. A peer name holding a NUL character cannot
/// be verified and is rejected before the security library sees it.
pub fn client_security_context(domain: &str) -> (r: Result<openssl::ssl::Ssl, TransportError>)
    ensures
        r is Err ==> r->Err_0 is HandshakeFailed,
        has_nul_char(domain@) <==> (r is Err && r->Err_0->HandshakeFailed_0@
            == "peer name unusable"@),
        r is Err ==> (r->Err_0->HandshakeFailed_0@ == "peer name unusable"@
            || r->Err_0->HandshakeFailed_0@ == "connector context failed"@
            || r->Err_0->HandshakeFailed_0@ == "connector configuration failed"@
            || r->Err_0->HandshakeFailed_0@ == "session setup failed"@),
{
    proof {
        reveal_strlit("peer name unusable");
        reveal_strlit("connector context failed");
        reveal_strlit("connector configuration failed");
        reveal_strlit("session setup failed");
    }
    if contains_nul(domain) {
        return Err(TransportError::HandshakeFailed("peer name unusable".to_owned()));
    }
    let builder = match dtls_connector_builder() {
        Ok(b) => b,
        Err(_) => {
            proof {
                reveal_strlit("connector context failed");
                reveal_strlit("peer name unusable");
                assert("connector context failed"@.len() != "peer name unusable"@.len());
                assert("connector context failed"@ != "peer name unusable"@);
            }
            return Err(TransportError::HandshakeFailed("connector context failed".to_owned()));
        },
    };
    let connector = connector_build(builder);
    let configuration = match connector_configure(&connector) {
        Ok(c) => c,
        Err(_) => {
            proof {
                reveal_strlit("connector configuration failed");
                reveal_strlit("peer name unusable");
                assert("connector configuration failed"@.len() != "peer name unusable"@.len());
                assert("connector configuration failed"@ != "peer name unusable"@);
            }
            return Err(TransportError::HandshakeFailed("connector configuration failed".to_owned()));
        },
    };
    match configuration_into_ssl(configuration, domain) {
        Ok(ssl) => Ok(ssl),
        Err(_) => {
            proof {
                reveal_strlit("session setup failed");
                reveal_strlit("peer name unusable");
                assert("session setup failed"@.len() != "peer name unusable"@.len());
                assert("session setup failed"@ != "peer name unusable"@);
            }
            Err(TransportError::HandshakeFailed("session setup failed".to_owned()))
        },
    }
}

} // verus!
