use vstd::prelude::*;

use crate::endpoint::Service;
use crate::request::{Request, RequestView};
use crate::response::{MiniResponse, ResponseView};

verus! {

/// A middleware: wraps a service into another with the same call shape.
pub trait Layer<Inner: Service> {
    type Service: Service;

    /// `outer` is what wrapping `inner` may give.
    spec fn wraps(&self, inner: Inner, outer: Self::Service) -> bool;

    fn layer(&self, inner: Inner) -> (r: Self::Service)
        requires
            inner.ready(),
        ensures
            self.wraps(inner, r),
            r.ready(),
    ;
}

/// A middleware that passes each request on to the service it wraps.
#[derive(Clone, Copy)]
pub struct LogLayer;

impl<Inner: Service> Layer<Inner> for LogLayer {
    type Service = LogService<Inner>;

    open spec fn wraps(&self, inner: Inner, outer: LogService<Inner>) -> bool {
        outer.inner == inner
    }

    fn layer(&self, inner: Inner) -> (r: LogService<Inner>) {
        LogService { inner }
    }
}

/// The service that `LogLayer` puts around another.
#[derive(Clone)]
pub struct LogService<S> {
    pub inner: S,
}

impl<S: Service> Service for LogService<S> {
    open spec fn ready(&self) -> bool {
        self.inner.ready()
    }

    open spec fn answers(&self, req: RequestView, resp: ResponseView) -> bool {
        self.inner.answers(req, resp)
    }

    fn call(&self, req: Request) -> (r: MiniResponse) {
        let (parts, body) = req.into_parts();
        let req = Request::from_parts(parts.duplicate(), body);
        self.inner.call(req)
    }
}

} // verus!
