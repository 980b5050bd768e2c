//! Client-side trust: the client pins exactly one root certificate (the
//! server's self-signed certificate, obtained out of band) rather than
//! trusting a certificate-authority store. Pinning means trust by exact
//! match of the DER encoding: a presented certificate is trusted if and
//! only if it is byte-for-byte the pinned one.

use vstd::prelude::*;
use crate::errors::{Error, ErrorKind};

verus! {

/// The pinning trust policy: a presented certificate (DER bytes) is trusted
/// exactly when it equals the pinned certificate (DER bytes).
pub open spec fn trusts(presented: Seq<u8>, pinned: Seq<u8>) -> bool {
    presented == pinned
}

/// The DER re-encoding of one PEM-encoded certificate: `Some` of the DER
/// bytes where the input parses as a certificate, `None` where it does not.
/// A function of the input bytes alone.
pub uninterp spec fn pem_to_der(pem: Seq<u8>) -> Option<Seq<u8>>;

/// Relies on openssl::x509::X509::from_pem and openssl::x509::X509Ref::to_der:
/// parsing a PEM certificate and re-encoding it as DER both depend on the
/// input bytes alone, so the composition is the function [`pem_to_der`].
/// The length bound keeps the input within what the library's memory BIO
/// accepts without panicking.
#[verifier::external_body]
fn pem_certificate_to_der(pem: &Vec<u8>) -> (r: Result<Vec<u8>, Error>)
    requires
        pem@.len() <= 0x7fffffff,
    ensures
        r is Ok <==> pem_to_der(pem@) is Some,
        r matches Ok(d) ==> pem_to_der(pem@) == Some(d@),
        r matches Err(e) ==> e.kind == ErrorKind::Crypto,
{
    let cert = openssl::x509::X509::from_pem(pem.as_slice())
        .map_err(|e| Error::crypto(format!("certificate PEM parse failed: {}", e)))?;
    cert.to_der().map_err(|e| Error::crypto(format!("certificate DER encode failed: {}", e)))
}

/// Re-encode a PEM certificate, as distributed out of band, into the DER
/// bytes the client pins. Succeeds with exactly the DER re-encoding of the
/// input wherever the input (of acceptable length) parses as a certificate;
/// everything else is refused with a crypto-kind error.
pub fn pinned_root_from_pem(pem: &Vec<u8>) -> (r: Result<Vec<u8>, Error>)
    ensures
        pem@.len() <= 0x7fffffff ==> (r is Ok <==> pem_to_der(pem@) is Some),
        r matches Ok(d) ==> pem_to_der(pem@) == Some(d@),
        r matches Err(e) ==> e.kind == ErrorKind::Crypto,
{
    if pem.len() > 0x7fffffff {
        return Err(Error::crypto("certificate PEM too large".to_owned()));
    }
    pem_certificate_to_der(pem)
}

/// Decide whether a presented certificate is trusted under the pinning
/// policy: accepted exactly when it is byte-for-byte the pinned one, and
/// refused with a TLS-kind error otherwise.
pub fn check_pinned(presented: &Vec<u8>, pinned: &Vec<u8>) -> (r: Result<(), Error>)
    ensures
        r is Ok <==> trusts(presented@, pinned@),
        r matches Err(e) ==> e.kind == ErrorKind::Tls,
{
    if presented.len() != pinned.len() {
        return Err(Error::tls("presented certificate does not match the pinned root".to_owned()));
    }
    let n = presented.len();
    let mut i: usize = 0;
    while i < n
        invariant
            i <= n,
            n == presented@.len(),
            n == pinned@.len(),
            forall|k: int| 0 <= k < i ==> presented@[k] == pinned@[k],
        decreases n - i,
    {
        if presented[i] != pinned[i] {
            return Err(Error::tls(
                "presented certificate does not match the pinned root".to_owned(),
            ));
        }
        i = i + 1;
    }
    proof {
        assert(presented@ =~= pinned@);
    }
    Ok(())
}

/// Law (handshake round trip at the trust layer): a client pinning exactly
/// the certificate the authority produced trusts that certificate, and a
/// client pinning any other certificate refuses it.
pub proof fn lemma_pinned_round_trip(issued: Seq<u8>, pinned: Seq<u8>)
    ensures
        pinned == issued ==> trusts(issued, pinned),
        pinned != issued ==> !trusts(issued, pinned),
{
}

} // verus!
