use vstd::prelude::*;

use crate::endpoint::{IntoHandler, IntoHandlerStruct, Service};
use crate::middleware::Layer;
use crate::request::Request;
use crate::response::{text_response, MiniResponse, NOT_FOUND};
use crate::same_text;

verus! {

/// No two entries share a path.
pub open spec fn keys_unique<Svc>(s: Seq<(String, Svc)>) -> bool {
    forall|i: int, j: int|
        0 <= i < s.len() && 0 <= j < s.len() && i != j ==> s[i].0@ != s[j].0@
}

pub open spec fn has_key<Svc>(s: Seq<(String, Svc)>, k: Seq<char>) -> bool {
    exists|i: int| 0 <= i < s.len() && s[i].0@ == k
}

/// The path-to-service mapping that a list of entries stands for.
pub open spec fn table_of<Svc>(s: Seq<(String, Svc)>) -> Map<Seq<char>, Svc> {
    Map::new(
        |k: Seq<char>| has_key(s, k),
        |k: Seq<char>| s[choose|i: int| 0 <= i < s.len() && s[i].0@ == k].1,
    )
}

proof fn lemma_table_at<Svc>(s: Seq<(String, Svc)>, i: int)
    requires
        keys_unique(s),
        0 <= i < s.len(),
    ensures
        table_of(s).contains_key(s[i].0@),
        table_of(s)[s[i].0@] == s[i].1,
{
    let k = s[i].0@;
    assert(has_key(s, k));
    let j = choose|j: int| 0 <= j < s.len() && s[j].0@ == k;
    assert(j == i);
}

/// An exact-path route table bound to a state, with request dispatch.
pub struct Router<S, Svc> {
    entries: Vec<(String, Svc)>,
    state: S,
}

impl<S, Svc: Service> View for Router<S, Svc> {
    type V = Map<Seq<char>, Svc>;

    closed spec fn view(&self) -> Map<Seq<char>, Svc> {
        table_of(self.entries@)
    }
}

impl<S, Svc: Service> Router<S, Svc> {
    /// Paths are unique and every stored service may be called.
    pub closed spec fn wf(&self) -> bool {
        &&& keys_unique(self.entries@)
        &&& forall|i: int| 0 <= i < self.entries@.len() ==> (#[trigger] self.entries@[i]).1.ready()
    }

    pub closed spec fn bound_state(&self) -> S {
        self.state
    }

    proof fn lemma_ready(&self, k: Seq<char>)
        requires
            self.wf(),
            self@.contains_key(k),
        ensures
            self@[k].ready(),
    {
        let i = choose|i: int| 0 <= i < self.entries@.len() && self.entries@[i].0@ == k;
        lemma_table_at(self.entries@, i);
        assert(self.entries@[i].1.ready());
    }

    /// An empty table holding `state` for its handlers.
    pub fn with_state(state: S) -> (r: Self)
        ensures
            r.wf(),
            r@ == Map::<Seq<char>, Svc>::empty(),
            r.bound_state() == state,
    {
        let r = Router { entries: Vec::new(), state };
        assert(r@ =~= Map::<Seq<char>, Svc>::empty());
        r
    }

    pub fn state(&self) -> (r: &S)
        ensures
            *r == self.bound_state(),
    {
        &self.state
    }

    fn find(&self, path: &str) -> (r: Option<usize>)
        requires
            self.wf(),
        ensures
            match r {
                Some(i) => i < self.entries@.len() && self.entries@[i as int].0@ == path@,
                None => !has_key(self.entries@, path@),
            },
    {
        let mut i: usize = 0;
        while i < self.entries.len()
            invariant
                i <= self.entries@.len(),
                forall|j: int| 0 <= j < i ==> (#[trigger] self.entries@[j]).0@ != path@,
            decreases self.entries@.len() - i,
        {
            if same_text(self.entries[i].0.as_str(), path) {
                return Some(i);
            }
            i = i + 1;
        }
        None
    }

    /// The service registered at exactly `path`, if any.
    pub fn lookup(&self, path: &str) -> (r: Option<&Svc>)
        requires
            self.wf(),
        ensures
            match r {
                Some(s) => self@.contains_key(path@) && *s == self@[path@] && s.ready(),
                None => !self@.contains_key(path@),
            },
    {
        match self.find(path) {
            Some(i) => {
                proof {
                    lemma_table_at(self.entries@, i as int);
                    self.lemma_ready(path@);
                }
                Some(&self.entries[i].1)
            },
            None => None,
        }
    }

    /// Registers `service` at `path`, replacing what was there.
    pub fn route(self, path: &str, service: Svc) -> (r: Self)
        requires
            self.wf(),
            service.ready(),
        ensures
            r.wf(),
            r@ == self@.insert(path@, service),
            r.bound_state() == self.bound_state(),
    {
        let ghost old_entries = self.entries@;
        let found = self.find(path);
        let mut entries = self.entries;
        let key = String::from_str(path);
        match found {
            Some(i) => {
                entries.set(i, (key, service));
                proof {
                    assert forall|k: Seq<char>|
                        has_key(entries@, k) == (has_key(old_entries, k) || k == path@) by {
                        if k == path@ {
                            assert(entries@[i as int].0@ == k);
                        }
                        if has_key(old_entries, k) {
                            let j = choose|j: int| 0 <= j < old_entries.len() && old_entries[j].0@ == k;
                            assert(entries@[j].0@ == k);
                        }
                        if has_key(entries@, k) {
                            let j = choose|j: int| 0 <= j < entries@.len() && entries@[j].0@ == k;
                            assert(old_entries[j].0@ == k);
                        }
                    }
                }
            },
            None => {
                entries.push((key, service));
                proof {
                    assert forall|k: Seq<char>|
                        has_key(entries@, k) == (has_key(old_entries, k) || k == path@) by {
                        if has_key(old_entries, k) {
                            let j = choose|j: int| 0 <= j < old_entries.len() && old_entries[j].0@ == k;
                            assert(entries@[j].0@ == k);
                        }
                        if k == path@ {
                            assert(entries@[old_entries.len() as int].0@ == k);
                        }
                    }
                }
            },
        }
        let r = Router { entries, state: self.state };
        proof {
            let m = self@.insert(path@, service);
            assert forall|k: Seq<char>| r@.contains_key(k) implies r@[k] == m[k] by {
                let j = choose|j: int| 0 <= j < entries@.len() && entries@[j].0@ == k;
                lemma_table_at(entries@, j);
                if k != path@ {
                    lemma_table_at(old_entries, j);
                }
            }
            assert forall|k: Seq<char>| r@.contains_key(k) == m.contains_key(k) by {
                assert(has_key(entries@, k) == (has_key(old_entries, k) || k == path@));
            }
            assert(r@ =~= m);
        }
        r
    }

    /// Answers a request: the service registered at its exact path, or the
    /// fixed not-found response.
    pub fn call(&self, req: Request) -> (r: MiniResponse)
        requires
            self.wf(),
        ensures
            self@.contains_key(req@.parts.path) ==> self@[req@.parts.path].answers(req@, r@),
            !self@.contains_key(req@.parts.path) ==> r@ == text_response(NOT_FOUND, "Not found"@),
    {
        match self.lookup(req.path()) {
            Some(service) => service.call(req),
            None => MiniResponse::not_found(),
        }
    }

    /// Wraps every registered service with `layer`. Routes added later are
    /// not wrapped.
    pub fn layer<L: Layer<Svc>>(self, layer: L) -> (r: Router<S, L::Service>)
        requires
            self.wf(),
        ensures
            r.wf(),
            r@.dom() == self@.dom(),
            forall|k: Seq<char>| #[trigger] r@.contains_key(k) ==> layer.wraps(self@[k], r@[k]),
            r.bound_state() == self.bound_state(),
    {
        let ghost orig = self.entries@;
        let mut entries = self.entries;
        let mut out: Vec<(String, L::Service)> = Vec::new();
        while entries.len() > 0
            invariant
                keys_unique(orig),
                forall|i: int| 0 <= i < orig.len() ==> (#[trigger] orig[i]).1.ready(),
                out@.len() + entries@.len() == orig.len(),
                entries@ == orig.subrange(out@.len() as int, orig.len() as int),
                forall|j: int|
                    0 <= j < out@.len() ==> (#[trigger] out@[j]).0@ == orig[j].0@ && layer.wraps(
                        orig[j].1,
                        out@[j].1,
                    ) && out@[j].1.ready(),
            decreases entries@.len(),
        {
            let (key, service) = entries.remove(0);
            assert(orig[out@.len() as int].1.ready());
            let wrapped = layer.layer(service);
            out.push((key, wrapped));
        }
        let r = Router { entries: out, state: self.state };
        proof {
            assert(out@.len() == orig.len());
            assert forall|k: Seq<char>| has_key(out@, k) == has_key(orig, k) by {
                if has_key(orig, k) {
                    let j = choose|j: int| 0 <= j < orig.len() && orig[j].0@ == k;
                    assert(out@[j].0@ == k);
                }
                if has_key(out@, k) {
                    let j = choose|j: int| 0 <= j < out@.len() && out@[j].0@ == k;
                    assert(orig[j].0@ == k);
                }
            }
            assert(r@.dom() =~= self@.dom());
            assert forall|k: Seq<char>| #[trigger] r@.contains_key(k) implies layer.wraps(
                self@[k],
                r@[k],
            ) by {
                let j = choose|j: int| 0 <= j < out@.len() && out@[j].0@ == k;
                lemma_table_at(out@, j);
                lemma_table_at(orig, j);
            }
        }
        r
    }
}

impl<S: Clone, Svc: Service> Router<S, Svc> {
    /// Normalises `endpoint` with a clone of this router's state, ready to
    /// be registered.
    pub fn bind<T, E: IntoHandler<T, S>>(&self, endpoint: E) -> (r: IntoHandlerStruct<E, T, S>)
        ensures
            r.handler() == endpoint,
            cloned(self.bound_state(), r.bound_state()),
    {
        endpoint.into_handler(self.state.clone())
    }
}

impl<Svc: Service> Router<(), Svc> {
    /// An empty table with no state.
    pub fn stateless() -> (r: Self)
        ensures
            r.wf(),
            r@ == Map::<Seq<char>, Svc>::empty(),
    {
        Router::with_state(())
    }
}

} // verus!
