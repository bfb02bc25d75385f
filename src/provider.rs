//! Addressing of the provider's operations: which echo service answers for
//! an address family, where a record lives, and how calls authenticate.

use vstd::prelude::*;
use crate::model::{Error, ErrorView};

verus! {

/// The address family that a record's type calls for.
#[derive(Clone, Copy, Debug, PartialEq, Eq, Structural)]
pub enum AddressFamily {
    Ipv4,
    Ipv6,
}

/// The family of a record type: `A` is IPv4, `AAAA` is IPv6, any other has none.
pub open spec fn family_of(record_type: Seq<char>) -> Option<AddressFamily> {
    if record_type == "A"@ {
        Some(AddressFamily::Ipv4)
    } else if record_type == "AAAA"@ {
        Some(AddressFamily::Ipv6)
    } else {
        None
    }
}

/// The name of a family's protocol, as it prefixes the echo service's host.
pub open spec fn protocol_name(family: AddressFamily) -> Seq<char> {
    match family {
        AddressFamily::Ipv4 => "ipv4"@,
        AddressFamily::Ipv6 => "ipv6"@,
    }
}

/// The echo service that reports the caller's address over one family only.
pub open spec fn lookup_url_of(family: AddressFamily) -> Seq<char> {
    "https://"@ + protocol_name(family) + ".icanhazip.com/"@
}

/// The provider's address of one record.
pub open spec fn record_url_of(zone_id: Seq<char>, record_id: Seq<char>) -> Seq<char> {
    "https://api.cloudflare.com/client/v4/zones/"@ + zone_id + "/dns_records/"@ + record_id
}

/// The value of the `Authorization` header for a bearer token.
pub open spec fn authorization_of(token: Seq<char>) -> Seq<char> {
    "Bearer "@ + token
}

impl AddressFamily {
    /// The name of the family's protocol: `ipv4` or `ipv6`.
    pub fn protocol(&self) -> (r: &'static str)
        ensures
            r@ == protocol_name(*self),
    {
        match self {
            AddressFamily::Ipv4 => "ipv4",
            AddressFamily::Ipv6 => "ipv6",
        }
    }
}

/// The family that a record of type `record_type` is compared against.
pub fn address_family(record_type: &str) -> (r: Result<AddressFamily, Error>)
    ensures
        family_of(record_type@) is Some ==> r == Ok::<AddressFamily, Error>(
            family_of(record_type@)->0,
        ),
        family_of(record_type@) is None ==> (r matches Err(e) && e@
            == ErrorView::UnsupportedRecordType(record_type@)),
{
    let a = "A";
    let aaaa = "AAAA";
    proof {
        reveal_strlit("A");
        reveal_strlit("AAAA");
    }
    if eq_text(record_type, a) {
        Ok(AddressFamily::Ipv4)
    } else if eq_text(record_type, aaaa) {
        Ok(AddressFamily::Ipv6)
    } else {
        Err(Error::UnsupportedRecordType(String::from_str(record_type)))
    }
}

/// Exact, character-by-character equality of two strings.
pub fn eq_text(a: &str, b: &str) -> (r: bool)
    ensures
        r == (a@ == b@),
{
    let n = a.unicode_len();
    if n != b.unicode_len() {
        return false;
    }
    let mut i: usize = 0;
    while i < n
        invariant
            n == a@.len(),
            n == b@.len(),
            i <= n,
            a@.subrange(0, i as int) == b@.subrange(0, i as int),
        decreases n - i,
    {
        if a.get_char(i) != b.get_char(i) {
            assert(a@[i as int] != b@[i as int]);
            return false;
        }
        assert(a@.subrange(0, i + 1) =~= a@.subrange(0, i as int).push(a@[i as int]));
        assert(b@.subrange(0, i + 1) =~= b@.subrange(0, i as int).push(b@[i as int]));
        i = i + 1;
    }
    assert(a@ =~= a@.subrange(0, n as int));
    assert(b@ =~= b@.subrange(0, n as int));
    true
}

/// The echo service to ask for the caller's address of `family`.
pub fn lookup_url(family: AddressFamily) -> (r: String)
    ensures
        r@ == lookup_url_of(family),
{
    let mut r = String::from_str("https://");
    r.append(family.protocol());
    r.append(".icanhazip.com/");
    r
}

/// The provider's address of record `record_id` in zone `zone_id`.
pub fn record_url(zone_id: &str, record_id: &str) -> (r: String)
    ensures
        r@ == record_url_of(zone_id@, record_id@),
{
    let mut r = String::from_str("https://api.cloudflare.com/client/v4/zones/");
    r.append(zone_id);
    r.append("/dns_records/");
    r.append(record_id);
    r
}

/// The `Authorization` header value that carries `token`.
pub fn authorization(token: &str) -> (r: String)
    ensures
        r@ == authorization_of(token@),
{
    let mut r = String::from_str("Bearer ");
    r.append(token);
    r
}

} // verus!
