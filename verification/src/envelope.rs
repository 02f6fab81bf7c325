//! Result envelopes: the structures in which every operation reports either
//! success data or one error message, never both.

use vstd::prelude::*;

verus! {

/// Envelope for the outcome of one DNS resolution: either a non-empty list
/// of address strings, or one error message. `count` mirrors the number of
/// addresses so that a foreign reader of the structure need not measure the
/// list itself.
#[derive(Debug)]
pub struct DnsResult {
    pub addresses: Option<Vec<String>>,
    pub count: usize,
    pub error: Option<String>,
}

/// Well-formedness of a [`DnsResult`]: exactly one of the error text and the
/// address list is present; the list, when present, is non-empty and `count`
/// equals its length; on error `count` is zero.
pub open spec fn dns_result_wf(r: DnsResult) -> bool {
    &&& (r.error is Some) <==> (r.addresses is None)
    &&& (r.addresses matches Some(a) ==> r.count == a.len() && a.len() > 0)
    &&& (r.addresses is None ==> r.count == 0)
}

/// Envelope for the outcome of one HTTP request: either a decoded body with
/// its status code, or one error message. The status code stays meaningful
/// in some error envelopes (a body that could not be transferred still has
/// the status the server sent); it is zero when the request never reached
/// the point of receiving a status.
#[derive(Debug)]
pub struct HttpResponse {
    pub body: Option<String>,
    pub status_code: u16,
    pub error: Option<String>,
}

/// Well-formedness of an [`HttpResponse`]: exactly one of the error text and
/// the body is present.
pub open spec fn http_response_wf(r: HttpResponse) -> bool {
    (r.error is Some) <==> (r.body is None)
}

/// Builds the error envelope for a failed DNS resolution: no addresses, a
/// zero count, and the given message.
pub fn create_dns_error(message: String) -> (r: DnsResult)
    ensures
        dns_result_wf(r),
        r.addresses is None,
        r.count == 0,
        r.error matches Some(m) && m@ == message@,
{
    DnsResult { addresses: None, count: 0, error: Some(message) }
}

/// Builds the success envelope for a DNS resolution that found at least one
/// address.
pub fn create_dns_success(addresses: Vec<String>) -> (r: DnsResult)
    requires
        addresses@.len() > 0,
    ensures
        dns_result_wf(r),
        r.addresses matches Some(a) && a@ == addresses@,
        r.count == addresses@.len(),
        r.error is None,
{
    let count = addresses.len();
    DnsResult { addresses: Some(addresses), count, error: None }
}

/// Builds the error envelope for a failed HTTP request, keeping whatever
/// status code was already known.
pub fn create_http_error(message: String, status: u16) -> (r: HttpResponse)
    ensures
        http_response_wf(r),
        r.body is None,
        r.status_code == status,
        r.error matches Some(m) && m@ == message@,
{
    HttpResponse { body: None, status_code: status, error: Some(message) }
}

/// Releases a DNS result envelope and everything it owns: each address
/// string, the list holding them, and the error text. Accepts the absent
/// marker and does nothing for it.
pub fn dns_result_free(result: Option<DnsResult>) {
    let _ = result;
}

/// Releases an HTTP response envelope and everything it owns: the body text
/// and the error text. Accepts the absent marker and does nothing for it.
pub fn http_response_free(response: Option<HttpResponse>) {
    let _ = response;
}

/// Releases one standalone text buffer that an operation handed out.
/// Accepts the absent marker and does nothing for it.
pub fn free_cstring(text: Option<String>) {
    let _ = text;
}

/// Exactly one of error text and success payload is present in every
/// well-formed DNS envelope, and the recorded count is the number of
/// elements actually held.
pub proof fn lemma_dns_result_exclusive(r: DnsResult)
    requires
        dns_result_wf(r),
    ensures
        (r.error is Some) != (r.addresses is Some),
        r.addresses matches Some(a) ==> r.count == a.len(),
        r.addresses is None ==> r.count == 0,
{
}

/// Exactly one of error text and body is present in every well-formed HTTP
/// envelope.
pub proof fn lemma_http_response_exclusive(r: HttpResponse)
    requires
        http_response_wf(r),
    ensures
        (r.error is Some) != (r.body is Some),
{
}

} // verus!
