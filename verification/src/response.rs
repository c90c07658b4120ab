//! The HTTP responses that each routing outcome turns into: the fixed
//! page with success, a static file's bytes, or a not-found / server
//! error answer.

use vstd::prelude::*;

use crate::route::Decision;

verus! {

/// The content type announced with a response body.
#[derive(PartialEq, Eq, Structural, Clone, Copy, Debug)]
pub enum ContentType {
    /// `text/html`: the fixed page.
    Html,
    /// No particular type is promised for the body.
    Unspecified,
}

/// An HTTP response: a status code, a content type and a body.
pub struct Response {
    /// The HTTP status code.
    pub status: u16,
    /// The content type of the body.
    pub content_type: ContentType,
    /// The body bytes, sent verbatim.
    pub body: Vec<u8>,
}

/// What reading a static file under the asset root yielded. The read
/// itself is I/O and happens outside this library; the outcome is handed
/// back here to be turned into a response.
pub enum ReadOutcome {
    /// The file exists; these are its exact bytes.
    Found(Vec<u8>),
    /// No file exists at the resolved location.
    Absent,
    /// The read failed for a reason other than absence.
    Failed,
}

/// The router: holds the fixed HTML document, loaded once at start and
/// returned verbatim, byte-identical, on every catch-all request.
pub struct Router {
    page: Vec<u8>,
}

impl View for Router {
    type V = Seq<u8>;

    closed spec fn view(&self) -> Seq<u8> {
        self.page@
    }
}

impl Router {
    /// The document is non-empty: the invariant every constructor
    /// establishes and every method preserves.
    pub open spec fn wf(&self) -> bool {
        self@.len() > 0
    }

    /// Make a router serving `page` as the fixed document.
    pub fn new(page: Vec<u8>) -> (r: Router)
        requires
            page@.len() > 0,
        ensures
            r.wf(),
            r@ == page@,
    {
        Router { page }
    }

    /// The catch-all response: success, `text/html`, the document verbatim.
    pub fn page_response(&self) -> (r: Response)
        requires
            self.wf(),
        ensures
            r.status == 200u16,
            r.content_type is Html,
            r.body@ == self@,
            r.body@.len() > 0,
    {
        Response { status: 200, content_type: ContentType::Html, body: clone_bytes(&self.page) }
    }

    /// The response for a routing decision: the fixed page for the
    /// catch-all, the static-file outcome turned into a response for a
    /// dispatched file, and not-found for everything nothing serves.
    /// For a file, `outcome` is what reading it under the asset root
    /// yielded; for the other decisions it is ignored.
    pub fn respond(&self, d: &Decision, outcome: ReadOutcome) -> (r: Response)
        requires
            self.wf(),
        ensures
            d is Page ==> r.status == 200u16 && r.content_type is Html && r.body@ == self@,
            d is NotFound ==> r.status == 404u16 && r.body@.len() == 0
                && r.content_type is Unspecified,
            d is StaticFile ==> {
                &&& r.content_type is Unspecified
                &&& (outcome matches ReadOutcome::Found(b) ==> r.status == 200u16 && r.body@ == b@)
                &&& (outcome is Absent ==> r.status == 404u16 && r.body@.len() == 0)
                &&& (outcome is Failed ==> r.status == 500u16 && r.body@.len() == 0)
            },
    {
        match d {
            Decision::Page => self.page_response(),
            Decision::StaticFile(_) => static_response(outcome),
            Decision::NotFound => not_found_response(),
        }
    }
}

/// A copy of a byte vector, element for element.
fn clone_bytes(v: &Vec<u8>) -> (r: Vec<u8>)
    ensures
        r@ == v@,
{
    let mut r: Vec<u8> = Vec::new();
    let mut i: usize = 0;
    while i < v.len()
        invariant
            0 <= i <= v@.len(),
            r@ =~= v@.subrange(0, i as int),
        decreases v@.len() - i,
    {
        let b = v[i];
        r.push(b);
        i += 1;
    }
    proof {
        assert(r@ =~= v@);
    }
    r
}

/// The response for a static-file read: the file's exact bytes with
/// success when it was found, not-found when it is absent, and a server
/// error when the read failed for another reason.
pub fn static_response(outcome: ReadOutcome) -> (r: Response)
    ensures
        r.content_type is Unspecified,
        outcome matches ReadOutcome::Found(b) ==> r.status == 200u16 && r.body@ == b@,
        outcome is Absent ==> r.status == 404u16 && r.body@.len() == 0,
        outcome is Failed ==> r.status == 500u16 && r.body@.len() == 0,
{
    match outcome {
        ReadOutcome::Found(b) => Response {
            status: 200,
            content_type: ContentType::Unspecified,
            body: b,
        },
        ReadOutcome::Absent => Response {
            status: 404,
            content_type: ContentType::Unspecified,
            body: Vec::new(),
        },
        ReadOutcome::Failed => Response {
            status: 500,
            content_type: ContentType::Unspecified,
            body: Vec::new(),
        },
    }
}

/// The response for a path nothing serves: an API path, or a static path
/// that is empty or unsafe.
pub fn not_found_response() -> (r: Response)
    ensures
        r.status == 404u16,
        r.content_type is Unspecified,
        r.body@.len() == 0,
{
    Response { status: 404, content_type: ContentType::Unspecified, body: Vec::new() }
}

} // verus!
