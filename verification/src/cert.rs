//! Certificate authority: plans a self-signed TLS server identity.
//!
//! Everything the issuer decides — subject common name, subject alternative
//! names, validity window, serial number, key size — is computed here as
//! plain values with proved contracts. Realising the plan as an X.509
//! structure (key generation, signing, bundling) is the crypto library's
//! work and happens outside this core, driven by a [`CertificateParams`].

use vstd::prelude::*;
use vstd::arithmetic::mul::lemma_mul_inequality;
use vstd::arithmetic::power::{lemma_pow_positive, pow};
use crate::errors::{Error, ErrorKind};

verus! {

/// Seconds in one day; the validity window is configured in days.
pub const SECONDS_PER_DAY: u64 = 86400;

/// The serial number is a 128-bit (16-byte) randomly generated integer.
pub const SERIAL_BYTES: usize = 16;

/// Default RSA modulus size in bits.
pub const DEFAULT_KEY_BITS: u32 = 4096;

/// Smallest accepted RSA modulus size in bits.
pub const MIN_KEY_BITS: u32 = 2048;

/// X.509 structure version of every issued certificate: version 3, the one
/// that admits extensions.
pub const X509_VERSION: u32 = 3;

/// The key-usage extension attached to every issued certificate: which uses
/// of the key it permits.
#[derive(Clone, Copy, Debug, PartialEq, Eq, Structural)]
pub struct KeyUsageFlags {
    /// The key may make digital signatures.
    pub digital_signature: bool,
    /// The key may make non-repudiable signatures.
    pub non_repudiation: bool,
    /// The key may encipher other keys.
    pub key_encipherment: bool,
}

/// The plan of a self-signed certificate: every decision of the issuing
/// logic, as plain values. Subject equals issuer (self-signed), so one
/// subject description suffices.
#[derive(Debug)]
pub struct CertificateParams {
    /// Subject (and issuer) common name: the first configured domain, or
    /// empty when no domain was configured.
    pub common_name: String,
    /// Subject-alternative-name DNS entries: the configured domains after
    /// the first, in order. Empty means the extension is absent.
    pub alt_names: Vec<String>,
    /// Start of the validity window, in seconds since the epoch.
    pub not_before: u64,
    /// End of the validity window, in seconds since the epoch.
    pub not_after: u64,
    /// Big-endian serial number bytes; the top bit is forced to zero so the
    /// ASN.1 representation is unambiguously non-negative.
    pub serial: Vec<u8>,
    /// RSA modulus size in bits.
    pub key_bits: u32,
    /// X.509 structure version.
    pub version: u32,
    /// The uses of the key the certificate permits.
    pub key_usage: KeyUsageFlags,
}

impl CertificateParams {
    /// Well-formedness of a plan.
    pub open spec fn wf(self) -> bool {
        &&& self.serial@.len() == SERIAL_BYTES
        &&& self.serial@[0] < 128
        &&& self.not_before <= self.not_after
        &&& self.key_bits >= MIN_KEY_BITS
        &&& self.version == X509_VERSION
    }

    /// Whether the realised certificate carries a subject-alternative-name
    /// extension: it is attached exactly when there are alternative names.
    pub open spec fn has_alt_name_extension(self) -> bool {
        self.alt_names@.len() > 0
    }
}

/// The subject common name for a configured domain list: the first domain,
/// or the empty name when the list is empty (a degraded, accepted case).
pub fn common_name_of(domains: &Vec<String>) -> (r: String)
    ensures
        domains@.len() > 0 ==> r@ == domains@[0]@,
        domains@.len() == 0 ==> r@.len() == 0,
{
    if domains.len() > 0 {
        domains[0].clone()
    } else {
        String::new()
    }
}

/// The subject-alternative-name entries for a configured domain list: all
/// domains after the first, in order; none when fewer than two domains are
/// configured.
pub fn alt_names_of(domains: &Vec<String>) -> (r: Vec<String>)
    ensures
        domains@.len() <= 1 ==> r@.len() == 0,
        domains@.len() > 1 ==> r.deep_view() =~= domains.deep_view().skip(1),
        r@.len() == if domains@.len() > 1 { domains@.len() - 1 } else { 0int },
{
    let mut r: Vec<String> = Vec::new();
    let n = domains.len();
    if n <= 1 {
        return r;
    }
    let mut i: usize = 1;
    while i < n
        invariant
            1 <= i <= n,
            n == domains@.len(),
            r@.len() == i - 1,
            forall|k: int| 0 <= k < i - 1 ==> #[trigger] r@[k]@ == domains@[k + 1]@,
        decreases n - i,
    {
        r.push(domains[i].clone());
        i = i + 1;
    }
    proof {
        assert forall|k: int| 0 <= k < r.deep_view().len() implies r.deep_view()[k]
            == domains.deep_view().skip(1)[k] by {
            assert(r@[k]@ == domains@[k + 1]@);
        }
        assert(r.deep_view() =~~= domains.deep_view().skip(1));
    }
    r
}

/// The validity window starting at `now` and lasting `validity_days` days.
pub fn validity_window(now: u64, validity_days: u64) -> (r: (u64, u64))
    requires
        now + validity_days * SECONDS_PER_DAY <= u64::MAX,
    ensures
        r.0 == now,
        r.1 == now + validity_days * SECONDS_PER_DAY,
        r.0 <= now <= r.1,
        r.1 - r.0 == validity_days * SECONDS_PER_DAY,
{
    (now, now + validity_days * SECONDS_PER_DAY)
}

/// The integer a big-endian byte string stands for.
pub open spec fn be_value(s: Seq<u8>) -> int
    decreases s.len(),
{
    if s.len() == 0 {
        0
    } else {
        be_value(s.drop_last()) * 256 + s.last()
    }
}

/// A big-endian byte string is worth less than one more than its leading
/// byte, shifted past the remaining bytes.
proof fn lemma_be_value_head_bound(s: Seq<u8>)
    requires
        s.len() >= 1,
    ensures
        0 <= be_value(s) < (s[0] + 1) * pow(256, (s.len() - 1) as nat),
    decreases s.len(),
{
    reveal(pow);
    if s.len() == 1 {
        assert(be_value(s.drop_last()) == 0);
    } else {
        let dl = s.drop_last();
        assert(dl.len() == s.len() - 1);
        assert(dl[0] == s[0]);
        lemma_be_value_head_bound(dl);
        let p = pow(256, (s.len() - 2) as nat);
        lemma_pow_positive(256, (s.len() - 2) as nat);
        assert(pow(256, (s.len() - 1) as nat) == 256 * p);
        assert(be_value(dl) <= (s[0] + 1) * p - 1);
        lemma_mul_inequality(be_value(dl), (s[0] + 1) * p - 1, 256);
        assert(be_value(dl) * 256 <= ((s[0] + 1) * p - 1) * 256);
        assert(((s[0] + 1) * p - 1) * 256 == (s[0] + 1) * (256 * p) - 256) by (nonlinear_arith);
        assert(be_value(s) == be_value(dl) * 256 + s.last());
        assert(s.last() <= 255);
        assert(be_value(s) <= (s[0] + 1) * (256 * p) - 1);
    }
}

/// The serial number built from 16 random bytes: the same bytes with the
/// top bit of the leading byte forced to zero, so the 128-bit value is
/// non-negative in its ASN.1 representation.
pub fn serial_from_bytes(bytes: &Vec<u8>) -> (r: Vec<u8>)
    requires
        bytes@.len() == SERIAL_BYTES,
    ensures
        r@.len() == SERIAL_BYTES,
        r@[0] == bytes@[0] & 0x7f,
        r@[0] < 128,
        forall|i: int| 1 <= i < SERIAL_BYTES ==> r@[i] == bytes@[i],
        0 <= be_value(r@) < 0x80000000000000000000000000000000,
{
    let mut r = bytes.clone();
    let masked: u8 = bytes[0] & 0x7f;
    proof {
        let b0 = bytes@[0];
        assert(b0 & 0x7f < 128) by (bit_vector);
    }
    r.set(0, masked);
    proof {
        lemma_be_value_head_bound(r@);
        lemma_pow_positive(256, 15);
        lemma_mul_inequality(r@[0] + 1, 128, pow(256, 15));
        assert(pow(256, 15) == 0x1000000000000000000000000000000) by {
            reveal_with_fuel(pow, 16);
        }
    }
    r
}

/// Relies on openssl::rand::rand_bytes: fills the buffer with
/// cryptographically random bytes, or reports an error stack.
/// Nothing is promised of the bytes themselves.
#[verifier::external_body]
fn random_serial_bytes() -> (r: Result<Vec<u8>, Error>)
    ensures
        r matches Ok(b) ==> b@.len() == SERIAL_BYTES,
        r matches Err(e) ==> e.kind == ErrorKind::Crypto,
{
    let mut buf = vec![0u8; SERIAL_BYTES];
    match openssl::rand::rand_bytes(&mut buf) {
        Ok(()) => Ok(buf),
        Err(e) => Err(Error::crypto(format!("serial number generation failed: {}", e))),
    }
}

/// Assemble the certificate plan from the configured domains, the issuance
/// time, the validity length, the (already masked or still raw) serial
/// bytes and the key size. Fails exactly when the key size is below the
/// accepted minimum.
pub fn plan(
    domains: &Vec<String>,
    validity_days: u64,
    now: u64,
    serial_bytes: &Vec<u8>,
    key_bits: u32,
) -> (r: Result<CertificateParams, Error>)
    requires
        now + validity_days * SECONDS_PER_DAY <= u64::MAX,
        serial_bytes@.len() == SERIAL_BYTES,
    ensures
        r is Ok <==> key_bits >= MIN_KEY_BITS,
        r matches Err(e) ==> e.kind == ErrorKind::Config,
        r matches Ok(p) ==> {
            &&& p.wf()
            &&& domains@.len() > 0 ==> p.common_name@ == domains@[0]@
            &&& domains@.len() == 0 ==> p.common_name@.len() == 0
            &&& domains@.len() > 1 ==> p.alt_names.deep_view() =~= domains.deep_view().skip(1)
            &&& p.has_alt_name_extension() <==> domains@.len() > 1
            &&& p.not_before == now
            &&& p.not_after == now + validity_days * SECONDS_PER_DAY
            &&& p.not_after - p.not_before == validity_days * SECONDS_PER_DAY
            &&& p.serial@[0] == serial_bytes@[0] & 0x7f
            &&& forall|i: int| 1 <= i < SERIAL_BYTES ==> p.serial@[i] == serial_bytes@[i]
            &&& p.key_bits == key_bits
            &&& p.version == X509_VERSION
            &&& p.key_usage == (KeyUsageFlags {
                digital_signature: true,
                non_repudiation: true,
                key_encipherment: true,
            })
        },
{
    if key_bits < MIN_KEY_BITS {
        return Err(Error::config("key size below accepted minimum".to_owned()));
    }
    let window = validity_window(now, validity_days);
    let params = CertificateParams {
        common_name: common_name_of(domains),
        alt_names: alt_names_of(domains),
        not_before: window.0,
        not_after: window.1,
        serial: serial_from_bytes(serial_bytes),
        key_bits,
        version: X509_VERSION,
        key_usage: KeyUsageFlags {
            digital_signature: true,
            non_repudiation: true,
            key_encipherment: true,
        },
    };
    Ok(params)
}

/// Issue the plan of a fresh self-signed identity for `domains`, valid for
/// `validity_days` days from `now` (the caller supplies the clock reading),
/// with the default key size. Rejects, as a configuration error, exactly
/// the windows whose end does not fit the time representation; beyond that
/// it fails only when the random serial cannot be drawn, and then with a
/// crypto-kind error.
pub fn issue(domains: &Vec<String>, validity_days: u64, now: u64) -> (r: Result<
    CertificateParams,
    Error,
>)
    ensures
        now + validity_days * SECONDS_PER_DAY > u64::MAX <==> (r is Err && r->Err_0.kind
            == ErrorKind::Config),
        r matches Err(e) ==> e.kind == ErrorKind::Config || e.kind == ErrorKind::Crypto,
        r matches Ok(p) ==> {
            &&& p.wf()
            &&& domains@.len() > 0 ==> p.common_name@ == domains@[0]@
            &&& domains@.len() == 0 ==> p.common_name@.len() == 0
            &&& domains@.len() > 1 ==> p.alt_names.deep_view() =~= domains.deep_view().skip(1)
            &&& p.has_alt_name_extension() <==> domains@.len() > 1
            &&& p.not_before == now
            &&& p.not_after == now + validity_days * SECONDS_PER_DAY
            &&& p.not_after - p.not_before == validity_days * SECONDS_PER_DAY
            &&& p.key_bits == DEFAULT_KEY_BITS
            &&& p.version == X509_VERSION
            &&& p.key_usage == (KeyUsageFlags {
                digital_signature: true,
                non_repudiation: true,
                key_encipherment: true,
            })
        },
{
    if validity_days > u64::MAX / SECONDS_PER_DAY
        || now > u64::MAX - validity_days * SECONDS_PER_DAY {
        return Err(Error::config("validity window does not fit".to_owned()));
    }
    let raw = match random_serial_bytes() {
        Ok(b) => b,
        Err(e) => {
            return Err(e);
        },
    };
    match plan(domains, validity_days, now, &raw, DEFAULT_KEY_BITS) {
        Ok(p) => Ok(p),
        Err(e) => {
            proof {
                assert(false);
            }
            Err(e)
        },
    }
}

} // verus!
