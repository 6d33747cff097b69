use std::marker::PhantomData;

use vstd::prelude::*;

use crate::extractor::{FromRequest, FromRequestParts, Rejection};
use crate::request::{Request, RequestView};
use crate::response::{IntoMiniResponse, MiniResponse, ResponseView};

verus! {

/// The uniform call shape every route holds: a request in, a response out.
pub trait Service: Sized {
    /// The service may be called. A service that states nothing may always be called.
    open spec fn ready(&self) -> bool {
        true
    }

    /// `resp` is a response the service may give to a request whose content
    /// is `req`. A service that states nothing may give any response.
    open spec fn answers(&self, req: RequestView, resp: ResponseView) -> bool {
        true
    }

    fn call(&self, req: Request) -> (r: MiniResponse)
        requires
            self.ready(),
        ensures
            self.answers(req@, r@),
    ;
}

/// A handler function bound to a state, normalised for the arity that `T`
/// records: `()`, `(T1,)` or `(T1, T2)`.
pub struct IntoHandlerStruct<H, T, S> {
    inner: H,
    state: S,
    _tytypes: PhantomData<T>,
}

impl<H, T, S> IntoHandlerStruct<H, T, S> {
    pub closed spec fn handler(&self) -> H {
        self.inner
    }

    pub closed spec fn bound_state(&self) -> S {
        self.state
    }

    /// Hands the handler on, bound to `state` instead.
    pub fn into_service(self, state: S) -> (r: HandlerService<H, T, S>)
        ensures
            r.handler() == self.handler(),
            r.bound_state() == state,
    {
        HandlerService { inner: self.inner, state, _tytypes: self._tytypes }
    }
}

impl<H: Clone, T, S: Clone> Clone for IntoHandlerStruct<H, T, S> {
    /// A copy holding clones of the handler and of the bound state.
    fn clone(&self) -> (r: Self)
        ensures
            cloned(self.handler(), r.handler()),
            cloned(self.bound_state(), r.bound_state()),
    {
        IntoHandlerStruct {
            inner: self.inner.clone(),
            state: self.state.clone(),
            _tytypes: PhantomData,
        }
    }
}

/// A handler together with the state it was bound to.
pub struct HandlerService<H, T, S> {
    inner: H,
    state: S,
    _tytypes: PhantomData<T>,
}

impl<H, T, S> HandlerService<H, T, S> {
    pub closed spec fn handler(&self) -> H {
        self.inner
    }

    pub closed spec fn bound_state(&self) -> S {
        self.state
    }
}

impl<H: Clone, T, S: Clone> Clone for HandlerService<H, T, S> {
    /// A copy holding clones of the handler and of the bound state.
    fn clone(&self) -> (r: Self)
        ensures
            cloned(self.handler(), r.handler()),
            cloned(self.bound_state(), r.bound_state()),
    {
        HandlerService {
            inner: self.inner.clone(),
            state: self.state.clone(),
            _tytypes: PhantomData,
        }
    }
}

/// Turns a function of a supported arity into a normalised handler.
pub trait IntoHandler<T, S>: Sized {
    fn into_handler(self, state: S) -> (r: IntoHandlerStruct<Self, T, S>)
        ensures
            r.handler() == self,
            r.bound_state() == state,
    ;
}

impl<F: Fn() -> I, I: IntoMiniResponse, S> IntoHandler<(), S> for F {
    fn into_handler(self, state: S) -> (r: IntoHandlerStruct<F, (), S>) {
        IntoHandlerStruct { inner: self, state, _tytypes: PhantomData }
    }
}

impl<F: Fn(T1) -> I, I: IntoMiniResponse, S, T1: FromRequest<S>> IntoHandler<(T1,), S> for F {
    fn into_handler(self, state: S) -> (r: IntoHandlerStruct<F, (T1,), S>) {
        IntoHandlerStruct { inner: self, state, _tytypes: PhantomData }
    }
}

impl<
    F: Fn(T1, T2) -> I,
    I: IntoMiniResponse,
    S,
    T1: FromRequestParts<S>,
    T2: FromRequest<S>,
> IntoHandler<(T1, T2), S> for F {
    fn into_handler(self, state: S) -> (r: IntoHandlerStruct<F, (T1, T2), S>) {
        IntoHandlerStruct { inner: self, state, _tytypes: PhantomData }
    }
}

/// `resp` is the response to an extraction outcome `x`: the rejection's own
/// response, or the converted result of one call of `handler` on the value.
pub open spec fn handled<A, I: IntoMiniResponse, H: Fn(A) -> I>(
    handler: H,
    x: Result<A, Rejection>,
    resp: ResponseView,
) -> bool {
    match x {
        Ok(a) => exists|i: I| #[trigger] handler.ensures((a,), i) && resp == i.response_spec(),
        Err(e) => resp == e.response_spec(),
    }
}

/// With no arguments the request is ignored.
impl<H: Fn() -> I, I: IntoMiniResponse, S> Service for IntoHandlerStruct<H, (), S> {
    open spec fn ready(&self) -> bool {
        self.handler().requires(())
    }

    open spec fn answers(&self, req: RequestView, resp: ResponseView) -> bool {
        exists|i: I| #[trigger] self.handler().ensures((), i) && resp == i.response_spec()
    }

    fn call(&self, req: Request) -> (r: MiniResponse) {
        let out = (self.inner)();
        out.into_response()
    }
}

/// With one argument the extractor reads the whole request.
impl<H: Fn(T1) -> I, I: IntoMiniResponse, S, T1: FromRequest<S>> Service for IntoHandlerStruct<
    H,
    (T1,),
    S,
> {
    open spec fn ready(&self) -> bool {
        forall|t: T1| #[trigger] self.handler().requires((t,))
    }

    open spec fn answers(&self, req: RequestView, resp: ResponseView) -> bool {
        exists|x: Result<T1, Rejection>|
            #[trigger] T1::from_request_spec(req, self.bound_state(), x) && handled(
                self.handler(),
                x,
                resp,
            )
    }

    fn call(&self, req: Request) -> (r: MiniResponse) {
        let ghost content = req@;
        let x = T1::from_request(req, &self.state);
        assert(T1::from_request_spec(content, self.bound_state(), x));
        match x {
            Ok(t1) => {
                assert(self.handler().requires((t1,)));
                let out = (self.inner)(t1);
                assert(self.handler().ensures((t1,), out));
                let r = out.into_response();
                assert(handled(self.handler(), Ok(t1), r@));
                r
            },
            Err(e) => e.into_response(),
        }
    }
}

/// `resp` is the response to a two-value extraction outcome `x`: the
/// rejection's own response, or the converted result of one call of `handler`.
pub open spec fn handled_pair<A, B, I: IntoMiniResponse, H: Fn(A, B) -> I>(
    handler: H,
    x: Result<(A, B), Rejection>,
    resp: ResponseView,
) -> bool {
    match x {
        Ok(p) => exists|i: I| #[trigger] handler.ensures((p.0, p.1), i) && resp == i.response_spec(),
        Err(e) => resp == e.response_spec(),
    }
}

/// With two arguments the first comes from the parts and the second from the
/// whole request, in that order.
impl<
    H: Fn(T1, T2) -> I,
    I: IntoMiniResponse,
    S,
    T1: FromRequestParts<S>,
    T2: FromRequest<S>,
> Service for IntoHandlerStruct<H, (T1, T2), S> {
    open spec fn ready(&self) -> bool {
        forall|a: T1, b: T2| #[trigger] self.handler().requires((a, b))
    }

    open spec fn answers(&self, req: RequestView, resp: ResponseView) -> bool {
        exists|x: Result<(T1, T2), Rejection>|
            #[trigger] <(T1, T2)>::from_request_spec(req, self.bound_state(), x) && handled_pair(
                self.handler(),
                x,
                resp,
            )
    }

    fn call(&self, req: Request) -> (r: MiniResponse) {
        let ghost content = req@;
        let x = <(T1, T2)>::from_request(req, &self.state);
        assert(<(T1, T2)>::from_request_spec(content, self.bound_state(), x));
        match x {
            Ok(p) => {
                let (t1, t2) = p;
                assert(self.handler().requires((t1, t2)));
                let out = (self.inner)(t1, t2);
                assert(self.handler().ensures((t1, t2), out));
                let r = out.into_response();
                assert(handled_pair(self.handler(), Ok((t1, t2)), r@));
                r
            },
            Err(e) => e.into_response(),
        }
    }
}

} // verus!
