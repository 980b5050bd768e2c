//! The listening endpoint: a socket address resolved once at construction
//! time from a `host:port` string and immutable afterwards.
//!
//! A literal dotted-quad address (`a.b.c.d:port`) is pure computation and
//! is parsed here, exactly against the grammar below. Resolving a host
//! *name* is a directory lookup and belongs to the surrounding I/O layer,
//! which hands the resolved address in as plain values.
//!
//! A model decision: the core models IPv4 endpoints only, as every endpoint
//! the service names is one; a resolution that yields another address
//! family is the I/O layer's to refuse.

use vstd::prelude::*;
use vstd::string::StringSliceAdditionalSpecFns;
use crate::errors::{Error, ErrorKind};

verus! {

/// An IPv4 socket address as plain values.
#[derive(Clone, Copy, Debug, PartialEq, Eq, Structural)]
pub struct SocketAddrV4 {
    /// First (leftmost) address octet.
    pub ip0: u8,
    /// Second address octet.
    pub ip1: u8,
    /// Third address octet.
    pub ip2: u8,
    /// Fourth address octet.
    pub ip3: u8,
    /// The TCP port.
    pub port: u16,
}

/// An ASCII decimal digit.
pub open spec fn is_ascii_digit(b: u8) -> bool {
    48 <= b <= 57
}

/// Where the run of decimal digits beginning at `start` ends: the first
/// position at or after `start` holding no digit, or the end of the input.
pub open spec fn digit_run_end(s: Seq<u8>, start: int) -> int
    decreases s.len() - start when 0 <= start <= s.len()
{
    if start >= s.len() || !is_ascii_digit(s[start]) {
        start
    } else {
        digit_run_end(s, start + 1)
    }
}

/// The value of a sequence of decimal digits, most significant first.
pub open spec fn digits_value(s: Seq<u8>) -> int
    decreases s.len(),
{
    if s.len() == 0 {
        0
    } else {
        digits_value(s.drop_last()) * 10 + (s.last() - 48)
    }
}

/// The decimal number beginning at `start`, accepted with at most `max_len`
/// digits and value at most `max_val`: its value and end position, or
/// nothing where the digit run is empty, too long, or too large.
pub open spec fn number_at(s: Seq<u8>, start: int, max_len: int, max_val: int) -> Option<
    (int, int),
> {
    let end = digit_run_end(s, start);
    if start < end && end - start <= max_len && digits_value(s.subrange(start, end)) <= max_val {
        Some((digits_value(s.subrange(start, end)), end))
    } else {
        None
    }
}

/// The grammar of a literal socket address over the bytes of the string:
/// four decimal octets (one to three digits each, value at most 255)
/// separated by `.`, then `:`, then a decimal port (one to five digits,
/// value at most 65535), with nothing before or after. The parse a valid
/// string owes, or nothing where the string does not fit the grammar.
pub open spec fn spec_parse_addr(s: Seq<u8>) -> Option<SocketAddrV4> {
    match number_at(s, 0, 3, 255) {
        Option::Some((v0, e0)) => if e0 < s.len() && s[e0] == 46 {
            match number_at(s, e0 + 1, 3, 255) {
                Option::Some((v1, e1)) => if e1 < s.len() && s[e1] == 46 {
                    match number_at(s, e1 + 1, 3, 255) {
                        Option::Some((v2, e2)) => if e2 < s.len() && s[e2] == 46 {
                            match number_at(s, e2 + 1, 3, 255) {
                                Option::Some((v3, e3)) => if e3 < s.len() && s[e3] == 58 {
                                    match number_at(s, e3 + 1, 5, 65535) {
                                        Option::Some((p, ep)) => if ep == s.len() {
                                            Option::Some(
                                                SocketAddrV4 {
                                                    ip0: v0 as u8,
                                                    ip1: v1 as u8,
                                                    ip2: v2 as u8,
                                                    ip3: v3 as u8,
                                                    port: p as u16,
                                                },
                                            )
                                        } else {
                                            Option::None
                                        },
                                        Option::None => Option::None,
                                    }
                                } else {
                                    Option::None
                                },
                                Option::None => Option::None,
                            }
                        } else {
                            Option::None
                        },
                        Option::None => Option::None,
                    }
                } else {
                    Option::None
                },
                Option::None => Option::None,
            }
        } else {
            Option::None
        },
        Option::None => Option::None,
    }
}

/// The digit run ends within the input, never before `start`, holds only
/// digits, and stops at a non-digit or at the end.
proof fn lemma_digit_run_end(s: Seq<u8>, start: int)
    requires
        0 <= start <= s.len(),
    ensures
        start <= digit_run_end(s, start) <= s.len(),
        forall|k: int| start <= k < digit_run_end(s, start) ==> is_ascii_digit(#[trigger] s[k]),
        digit_run_end(s, start) == s.len() || !is_ascii_digit(s[digit_run_end(s, start)]),
    decreases s.len() - start,
{
    if start < s.len() && is_ascii_digit(s[start]) {
        lemma_digit_run_end(s, start + 1);
    }
}

/// Scan the decimal number beginning at `start`, mirroring `number_at`.
fn scan_number(bytes: &Vec<u8>, start: usize, max_len: usize, max_val: u32) -> (r: Option<(
    u32,
    usize,
)>)
    requires
        start <= bytes@.len(),
        1 <= max_len <= 5,
        max_val < 0x10000,
    ensures
        r matches Some((v, e)) ==> number_at(bytes@, start as int, max_len as int, max_val as int)
            == Option::Some((v as int, e as int)) && start < e <= bytes@.len(),
        r is None ==> number_at(bytes@, start as int, max_len as int, max_val as int) is None,
{
    proof {
        lemma_digit_run_end(bytes@, start as int);
    }
    let ghost run = digit_run_end(bytes@, start as int);
    let n = bytes.len();
    let mut e: usize = start;
    let mut v: u32 = 0;
    while e < n && 48 <= bytes[e] && bytes[e] <= 57 && e - start < max_len
        invariant
            start <= e <= n,
            n == bytes@.len(),
            e - start <= max_len,
            1 <= max_len <= 5,
            start <= run <= n,
            forall|k: int| start <= k < run ==> is_ascii_digit(#[trigger] bytes@[k]),
            run == bytes@.len() || !is_ascii_digit(bytes@[run]),
            e <= run,
            v == digits_value(bytes@.subrange(start as int, e as int)),
            e - start == 0 ==> v == 0,
            e - start == 1 ==> v < 10,
            e - start == 2 ==> v < 100,
            e - start == 3 ==> v < 1000,
            e - start == 4 ==> v < 10000,
            e - start == 5 ==> v < 100000,
        decreases n - e,
    {
        proof {
            assert(bytes@.subrange(start as int, e + 1).drop_last() =~= bytes@.subrange(
                start as int,
                e as int,
            ));
            assert(e < run) by {
                if run <= e as int {
                    assert(!is_ascii_digit(bytes@[run]) || run == bytes@.len());
                }
            }
            assert(digits_value(bytes@.subrange(start as int, e + 1)) == v * 10 + (bytes@[e as int]
                - 48));
        }
        v = v * 10 + (bytes[e] as u32 - 48);
        e = e + 1;
    }
    if e == start {
        proof {
            assert(run == start) by {
                if run > start as int {
                    assert(is_ascii_digit(bytes@[start as int]));
                }
            }
        }
        return None;
    }
    if e < n && 48 <= bytes[e] && bytes[e] <= 57 {
        // the run continues past the accepted length
        proof {
            assert(e - start == max_len);
            assert(e < run) by {
                if run <= e as int {
                    assert(!is_ascii_digit(bytes@[run]) || run == bytes@.len());
                }
            }
            assert(run - start > max_len);
        }
        return None;
    }
    proof {
        assert(run == e) by {
            if run > e as int {
                assert(is_ascii_digit(bytes@[e as int]));
            }
        }
    }
    if v > max_val {
        return None;
    }
    Some((v, e))
}

/// Parse a literal `a.b.c.d:port` socket address from the bytes of a
/// string. Succeeds, with the octets and port the grammar gives, exactly
/// on the strings the grammar accepts; everything else is refused as a
/// configuration error.
pub fn parse_socket_addr(address: &str) -> (r: Result<SocketAddrV4, Error>)
    ensures
        r matches Ok(a) ==> spec_parse_addr(address.spec_bytes()) == Option::Some(a),
        r is Err <==> spec_parse_addr(address.spec_bytes()) is None,
        r matches Err(e) ==> e.kind == ErrorKind::Config,
{
    let bytes = address.as_bytes_vec();
    let err_msg = "could not parse the socket address";
    let r0 = scan_number(&bytes, 0, 3, 255);
    let (v0, e0) = match r0 {
        Some(p) => p,
        None => {
            return Err(Error::config(err_msg.to_owned()));
        },
    };
    if !(e0 < bytes.len() && bytes[e0] == 46) {
        return Err(Error::config(err_msg.to_owned()));
    }
    let (v1, e1) = match scan_number(&bytes, e0 + 1, 3, 255) {
        Some(p) => p,
        None => {
            return Err(Error::config(err_msg.to_owned()));
        },
    };
    if !(e1 < bytes.len() && bytes[e1] == 46) {
        return Err(Error::config(err_msg.to_owned()));
    }
    let (v2, e2) = match scan_number(&bytes, e1 + 1, 3, 255) {
        Some(p) => p,
        None => {
            return Err(Error::config(err_msg.to_owned()));
        },
    };
    if !(e2 < bytes.len() && bytes[e2] == 46) {
        return Err(Error::config(err_msg.to_owned()));
    }
    let (v3, e3) = match scan_number(&bytes, e2 + 1, 3, 255) {
        Some(p) => p,
        None => {
            return Err(Error::config(err_msg.to_owned()));
        },
    };
    if !(e3 < bytes.len() && bytes[e3] == 58) {
        return Err(Error::config(err_msg.to_owned()));
    }
    let (p, ep) = match scan_number(&bytes, e3 + 1, 5, 65535) {
        Some(p) => p,
        None => {
            return Err(Error::config(err_msg.to_owned()));
        },
    };
    if ep != bytes.len() {
        return Err(Error::config(err_msg.to_owned()));
    }
    Ok(SocketAddrV4 { ip0: v0 as u8, ip1: v1 as u8, ip2: v2 as u8, ip3: v3 as u8, port: p as u16 })
}

} // verus!
