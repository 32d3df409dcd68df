//! The canonical form of a replicated HTTP response.

use vstd::prelude::*;

verus! {

/// `candid::Nat`, the arbitrary-size natural number in which the hosting
/// runtime reports an HTTP status. The library carries it and never looks inside.
#[verifier::external_type_specification]
#[verifier::external_body]
pub struct ExNat(candid::Nat);

/// One HTTP header.
#[derive(Debug)]
pub struct HttpHeader {
    pub name: String,
    pub value: String,
}

impl View for HttpHeader {
    type V = (Seq<char>, Seq<char>);

    open spec fn view(&self) -> (Seq<char>, Seq<char>) {
        (self.name@, self.value@)
    }
}

/// An HTTP response as the transport delivers it.
#[derive(Debug)]
pub struct HttpResponse {
    /// The response status (200, 404, ...).
    pub status: candid::Nat,
    /// The headers, which differ from replica to replica.
    pub headers: Vec<HttpHeader>,
    /// The body.
    pub body: Vec<u8>,
}

/// The mathematical form of an [`HttpResponse`].
pub struct HttpResponseView {
    pub status: candid::Nat,
    pub headers: Seq<(Seq<char>, Seq<char>)>,
    pub body: Seq<u8>,
}

impl View for HttpResponse {
    type V = HttpResponseView;

    open spec fn view(&self) -> HttpResponseView {
        HttpResponseView {
            status: self.status,
            headers: self.headers@.map_values(|h: HttpHeader| h@),
            body: self.body@,
        }
    }
}

/// A raw response together with the context that the requester attached.
#[derive(Debug)]
pub struct TransformArgs {
    pub response: HttpResponse,
    pub context: Vec<u8>,
}

/// The canonical form of a response: its status and its body, and no headers.
pub open spec fn canonical(raw: HttpResponseView) -> HttpResponseView {
    HttpResponseView { status: raw.status, headers: Seq::empty(), body: raw.body }
}

/// Brings a raw response into canonical form: the status and the body pass
/// through unchanged, the headers and the context are discarded.
pub fn transform(response: TransformArgs) -> (r: HttpResponse)
    ensures
        r@ == canonical(response.response@),
{
    let res = response.response;
    let r = HttpResponse { status: res.status, headers: Vec::new(), body: res.body };
    assert(r@.headers =~= Seq::empty());
    r
}

/// Replicas agree on the canonical form: two raw responses with the same
/// status and the same body have the same canonical form, whatever their headers.
pub proof fn lemma_canonical_ignores_headers(a: HttpResponseView, b: HttpResponseView)
    requires
        a.status == b.status,
        a.body == b.body,
    ensures
        canonical(a) == canonical(b),
{
}

/// A canonical form is its own canonical form.
pub proof fn lemma_canonical_is_idempotent(raw: HttpResponseView)
    ensures
        canonical(canonical(raw)) == canonical(raw),
{
}

} // verus!
