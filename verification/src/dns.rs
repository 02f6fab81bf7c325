//! The DNS resolution operation: validating the hostname, selecting the
//! usable caller-supplied nameservers, and folding every outcome of the
//! lookup into a result envelope.

use vstd::prelude::*;
use vstd::utf8::{decode_utf8, valid_utf8};
use crate::envelope::{create_dns_error, create_dns_success, dns_result_wf, DnsResult};
use crate::text::decode_utf8_bytes;

verus! {

/// One nameserver address as plain values: the four octets of a version-4
/// address, or the eight groups of a version-6 address.
#[derive(Clone, Copy, PartialEq, Eq, Structural, Debug)]
pub enum IpLiteral {
    V4(u8, u8, u8, u8),
    V6(u16, u16, u16, u16, u16, u16, u16, u16),
}

/// A resolution ready to run: the decoded hostname and the nameservers to
/// use; an empty nameserver list means the system configuration decides.
#[derive(Debug)]
pub struct DnsQuery {
    pub hostname: String,
    pub nameservers: Vec<IpLiteral>,
}

impl DnsQuery {
    /// True when resolution must fall back on the system configuration:
    /// no usable nameserver was supplied.
    pub fn use_system_config(&self) -> (r: bool)
        ensures
            r == (self.nameservers@.len() == 0),
    {
        self.nameservers.len() == 0
    }
}

/// The nameservers that survive the best-effort parse: the addresses that
/// did parse, in their given order, with the entries that did not parse
/// silently skipped.
pub open spec fn valid_nameservers(parsed: Seq<Option<IpLiteral>>) -> Seq<IpLiteral>
    decreases parsed.len(),
{
    if parsed.len() == 0 {
        Seq::empty()
    } else {
        valid_nameservers(parsed.drop_last()) + match parsed.last() {
            Some(a) => seq![a],
            None => Seq::empty(),
        }
    }
}

/// Keeps exactly the nameserver entries whose text parsed as an address, in
/// their given order.
pub fn select_nameservers(parsed: &Vec<Option<IpLiteral>>) -> (r: Vec<IpLiteral>)
    ensures
        r@ == valid_nameservers(parsed@),
{
    let mut out: Vec<IpLiteral> = Vec::new();
    let mut i: usize = 0;
    while i < parsed.len()
        invariant
            i <= parsed.len(),
            out@ == valid_nameservers(parsed@.take(i as int)),
        decreases parsed.len() - i,
    {
        match parsed[i] {
            Some(a) => {
                out.push(a);
            },
            None => {},
        }
        proof {
            assert(parsed@.take(i + 1).drop_last() =~= parsed@.take(i as int));
            assert(parsed@.take(i + 1).last() == parsed@[i as int]);
        }
        i = i + 1;
    }
    proof {
        assert(parsed@.take(parsed.len() as int) =~= parsed@);
    }
    out
}

/// Validates the hostname and selects the usable nameservers. Fails exactly
/// when the hostname bytes are not well-formed text, with the error envelope
/// the caller is owed; an unparseable nameserver entry never fails the call,
/// it is skipped.
pub fn plan_dns(hostname: &Vec<u8>, nameservers: &Vec<Option<IpLiteral>>) -> (r: Result<
    DnsQuery,
    DnsResult,
>)
    ensures
        match r {
            Ok(q) => {
                &&& valid_utf8(hostname@)
                &&& q.hostname@ == decode_utf8(hostname@)
                &&& q.nameservers@ == valid_nameservers(nameservers@)
            },
            Err(e) => {
                &&& !valid_utf8(hostname@)
                &&& dns_result_wf(e)
                &&& e.error matches Some(m) && m@ == "Invalid hostname encoding"@
            },
        },
{
    let host = match decode_utf8_bytes(hostname) {
        Some(h) => h,
        None => {
            return Err(create_dns_error(String::from_str("Invalid hostname encoding")));
        },
    };
    let selected = select_nameservers(nameservers);
    Ok(DnsQuery { hostname: host, nameservers: selected })
}

/// What came of running the lookup, as the surrounding program reports it:
/// the execution context could not be built, the resolver could not be
/// built, the lookup failed, or it returned a list of address texts.
#[derive(Debug)]
pub enum DnsEvent {
    RuntimeFailed,
    ResolverFailed(String),
    LookupFailed(String),
    Resolved(Vec<String>),
}

fn finish_dns_event(event: DnsEvent, resolver_prefix: String) -> (r: DnsResult)
    ensures
        dns_result_wf(r),
        match event {
            DnsEvent::RuntimeFailed => r.error matches Some(m) && m@ == "Failed to create runtime"@,
            DnsEvent::ResolverFailed(d) => r.error matches Some(m) && m@ == resolver_prefix@ + d@,
            DnsEvent::LookupFailed(d) => r.error matches Some(m) && m@ == "DNS lookup failed: "@
                + d@,
            DnsEvent::Resolved(addresses) => {
                &&& (addresses@.len() == 0 ==> (r.error matches Some(m) && m@
                    == "No addresses found"@))
                &&& (addresses@.len() > 0 ==> {
                    &&& r.error is None
                    &&& r.addresses matches Some(a) && a@ == addresses@
                    &&& r.count == addresses@.len()
                })
            },
        },
{
    match event {
        DnsEvent::RuntimeFailed => create_dns_error(String::from_str("Failed to create runtime")),
        DnsEvent::ResolverFailed(d) => create_dns_error(resolver_prefix.concat(d.as_str())),
        DnsEvent::LookupFailed(d) => create_dns_error(
            String::from_str("DNS lookup failed: ").concat(d.as_str()),
        ),
        DnsEvent::Resolved(addresses) => {
            if addresses.len() == 0 {
                create_dns_error(String::from_str("No addresses found"))
            } else {
                create_dns_success(addresses)
            }
        },
    }
}

/// Folds the outcome of a general resolution — one that may have used
/// caller-supplied nameservers — into its result envelope. A lookup that
/// yielded no address is an error, not an empty success, so a success
/// envelope always carries at least one address.
pub fn finish_dns(event: DnsEvent) -> (r: DnsResult)
    ensures
        dns_result_wf(r),
        match event {
            DnsEvent::RuntimeFailed => r.error matches Some(m) && m@ == "Failed to create runtime"@,
            DnsEvent::ResolverFailed(d) => r.error matches Some(m) && m@
                == "Failed to create system resolver: "@ + d@,
            DnsEvent::LookupFailed(d) => r.error matches Some(m) && m@ == "DNS lookup failed: "@
                + d@,
            DnsEvent::Resolved(addresses) => {
                &&& (addresses@.len() == 0 ==> (r.error matches Some(m) && m@
                    == "No addresses found"@))
                &&& (addresses@.len() > 0 ==> {
                    &&& r.error is None
                    &&& r.addresses matches Some(a) && a@ == addresses@
                    &&& r.count == addresses@.len()
                })
            },
        },
{
    finish_dns_event(event, String::from_str("Failed to create system resolver: "))
}

/// Folds the outcome of a system-configuration-only resolution into its
/// result envelope; it differs from [`finish_dns`] only in the wording of
/// the resolver-construction failure.
pub fn finish_dns_simple(event: DnsEvent) -> (r: DnsResult)
    ensures
        dns_result_wf(r),
        match event {
            DnsEvent::RuntimeFailed => r.error matches Some(m) && m@ == "Failed to create runtime"@,
            DnsEvent::ResolverFailed(d) => r.error matches Some(m) && m@
                == "Failed to create resolver: "@ + d@,
            DnsEvent::LookupFailed(d) => r.error matches Some(m) && m@ == "DNS lookup failed: "@
                + d@,
            DnsEvent::Resolved(addresses) => {
                &&& (addresses@.len() == 0 ==> (r.error matches Some(m) && m@
                    == "No addresses found"@))
                &&& (addresses@.len() > 0 ==> {
                    &&& r.error is None
                    &&& r.addresses matches Some(a) && a@ == addresses@
                    &&& r.count == addresses@.len()
                })
            },
        },
{
    finish_dns_event(event, String::from_str("Failed to create resolver: "))
}

/// An unparseable nameserver entry is skipped without affecting the others:
/// removing it leaves the selected nameservers unchanged.
pub proof fn lemma_invalid_nameserver_skipped(parsed: Seq<Option<IpLiteral>>, i: int)
    requires
        0 <= i < parsed.len(),
        parsed[i] is None,
    ensures
        valid_nameservers(parsed) == valid_nameservers(parsed.remove(i)),
    decreases parsed.len(),
{
    if i == parsed.len() - 1 {
        assert(parsed.remove(i) =~= parsed.drop_last());
    } else {
        lemma_invalid_nameserver_skipped(parsed.drop_last(), i);
        assert(parsed.remove(i).drop_last() =~= parsed.drop_last().remove(i));
        assert(parsed.remove(i).last() == parsed.last());
    }
}

} // verus!
