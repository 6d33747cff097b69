use vstd::prelude::*;

verus! {

/// The non-body portion of a request, as the extractors see it.
pub struct PartsView {
    pub method: Seq<char>,
    pub path: Seq<char>,
    pub headers: Seq<(Seq<char>, Seq<char>)>,
}

/// The mathematical content of a request: its parts and its whole body.
pub struct RequestView {
    pub parts: PartsView,
    pub body: Seq<u8>,
}

/// Method, path and headers of a request. These can be duplicated, so that
/// any number of parts extractors can inspect them without touching the body.
pub struct Parts {
    pub method: String,
    pub path: String,
    pub headers: Vec<(String, String)>,
}

pub open spec fn header_view(h: (String, String)) -> (Seq<char>, Seq<char>) {
    (h.0@, h.1@)
}

impl View for Parts {
    type V = PartsView;

    open spec fn view(&self) -> PartsView {
        PartsView {
            method: self.method@,
            path: self.path@,
            headers: self.headers@.map_values(|h: (String, String)| header_view(h)),
        }
    }
}

impl Parts {
    pub fn new(method: String, path: String, headers: Vec<(String, String)>) -> (r: Parts)
        ensures
            r.method@ == method@,
            r.path@ == path@,
            r.headers@ == headers@,
    {
        Parts { method, path, headers }
    }

    /// An independent copy of the parts, equal to them.
    pub fn duplicate(&self) -> (r: Parts)
        ensures
            r@ == self@,
    {
        let mut headers: Vec<(String, String)> = Vec::new();
        let mut i: usize = 0;
        while i < self.headers.len()
            invariant
                i <= self.headers@.len(),
                headers@.len() == i,
                forall|j: int|
                    0 <= j < i ==> #[trigger] header_view(headers@[j]) == header_view(
                        self.headers@[j],
                    ),
            decreases self.headers@.len() - i,
        {
            let name = self.headers[i].0.clone();
            let value = self.headers[i].1.clone();
            headers.push((name, value));
            i = i + 1;
        }
        let r = Parts { method: self.method.clone(), path: self.path.clone(), headers };
        assert(r@.headers =~= self@.headers);
        r
    }
}

/// An inbound request: its parts and a body that a single extractor consumes.
pub struct Request {
    pub parts: Parts,
    pub body: Vec<u8>,
}

impl View for Request {
    type V = RequestView;

    open spec fn view(&self) -> RequestView {
        RequestView { parts: self.parts@, body: self.body@ }
    }
}

impl Request {
    pub fn new(method: String, path: String, headers: Vec<(String, String)>, body: Vec<u8>) -> (r:
        Request)
        ensures
            r.parts.method@ == method@,
            r.parts.path@ == path@,
            r.parts.headers@ == headers@,
            r.body@ == body@,
    {
        Request { parts: Parts::new(method, path, headers), body }
    }

    /// Splits the request into its parts and its body.
    pub fn into_parts(self) -> (r: (Parts, Vec<u8>))
        ensures
            r.0@ == self@.parts,
            r.1@ == self@.body,
    {
        (self.parts, self.body)
    }

    /// Joins parts and a body into a request.
    pub fn from_parts(parts: Parts, body: Vec<u8>) -> (r: Request)
        ensures
            r@ == (RequestView { parts: parts@, body: body@ }),
    {
        Request { parts, body }
    }

    pub fn path(&self) -> (r: &str)
        ensures
            r@ == self@.parts.path,
    {
        self.parts.path.as_str()
    }
}

} // verus!
