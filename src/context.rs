//! The per-request context that the stages share.
use vstd::prelude::*;
use vstd::string::*;
use crate::auth::Principal;
use crate::text::same_text;

verus! {

/// The state of one request while it passes the pipeline.
pub struct RequestContext {
    request_id: String,
    arrival: i64,
    principal: Option<Principal>,
    annotations: Vec<(String, String)>,
}

/// The annotation keys, in the order they were first written.
pub open spec fn annotation_keys(a: Seq<(String, String)>) -> Seq<Seq<char>> {
    a.map_values(|e: (String, String)| e.0@)
}

/// No key is annotated twice.
pub open spec fn keys_unique(a: Seq<(String, String)>) -> bool {
    forall|i: int, j: int| 0 <= i < j < a.len() ==> a[i].0@ != a[j].0@
}

impl RequestContext {
    /// The request id.
    pub closed spec fn id(&self) -> Seq<char> {
        self.request_id@
    }

    /// The arrival time.
    pub closed spec fn arrived(&self) -> i64 {
        self.arrival
    }

    /// The attached principal, if any.
    pub closed spec fn principal_of(&self) -> Option<Principal> {
        self.principal
    }

    /// The annotations in the order their keys were first written.
    pub closed spec fn entries(&self) -> Seq<(String, String)> {
        self.annotations@
    }

    /// The request id, fixed when the context was opened.
    pub fn request_id(&self) -> (r: &String)
        ensures
            r@ == self.id(),
    {
        &self.request_id
    }

    /// The arrival time.
    pub fn arrival(&self) -> (r: i64)
        ensures
            r == self.arrived(),
    {
        self.arrival
    }

    /// The attached principal, if any.
    pub fn principal(&self) -> (r: Option<&Principal>)
        ensures
            match self.principal_of() {
                Some(p) => r == Some(&p),
                None => r is None,
            },
    {
        self.principal.as_ref()
    }

    /// The annotations in the order their keys were first written.
    pub fn annotations(&self) -> (r: &Vec<(String, String)>)
        ensures
            r@ == self.entries(),
    {
        &self.annotations
    }

    /// The context is well formed when its annotation keys are unique.
    pub open spec fn wf(&self) -> bool {
        keys_unique(self.entries())
    }

    /// A fresh context: no principal, no annotations.
    pub fn new(request_id: String, arrival: i64) -> (r: RequestContext)
        ensures
            r.wf(),
            r.id() == request_id@,
            r.arrived() == arrival,
            r.principal_of() is None,
            r.entries().len() == 0,
    {
        RequestContext { request_id, arrival, principal: None, annotations: Vec::new() }
    }

    /// Attaches the principal once; a context that already has one keeps it.
    pub fn attach_principal(&mut self, p: Principal) -> (attached: bool)
        ensures
            attached == old(self).principal_of() is None,
            attached ==> final(self).principal_of() == Some(p),
            !attached ==> final(self).principal_of() == old(self).principal_of(),
            final(self).id() == old(self).id(),
            final(self).arrived() == old(self).arrived(),
            final(self).entries() == old(self).entries(),
    {
        if self.principal.is_none() {
            self.principal = Some(p);
            true
        } else {
            false
        }
    }

    /// Writes `value` under `key`: an existing key keeps its place and takes the
    /// new value, a new key is added last.
    pub fn annotate(&mut self, key: String, value: String)
        requires
            old(self).wf(),
        ensures
            final(self).wf(),
            final(self).id() == old(self).id(),
            final(self).arrived() == old(self).arrived(),
            final(self).principal_of() == old(self).principal_of(),
            match old(self).annotation_index(key@) {
                Some(i) => final(self).entries().len() == old(self).entries().len()
                    && final(self).entries()[i].0@ == key@
                    && final(self).entries()[i].1@ == value@
                    && forall|j: int| 0 <= j < old(self).entries().len() && j != i
                        ==> final(self).entries()[j] == old(self).entries()[j],
                None => final(self).entries().len() == old(self).entries().len() + 1
                    && final(self).entries().last().0@ == key@
                    && final(self).entries().last().1@ == value@
                    && forall|j: int| 0 <= j < old(self).entries().len()
                        ==> final(self).entries()[j] == old(self).entries()[j],
            },
    {
        let n = self.annotations.len();
        let mut i: usize = 0;
        while i < n
            invariant
                *self == *old(self),
                self.wf(),
                n == self.entries().len(),
                i <= n,
                forall|j: int| 0 <= j < i ==> self.entries()[j].0@ != key@,
            decreases n - i,
        {
            if same_text(self.annotations[i].0.as_str(), key.as_str()) {
                proof {
                    self.lemma_index_unique(key@, i as int);
                }
                self.annotations.set(i, (key, value));
                assert(forall|j: int| 0 <= j < n ==> #[trigger] self.entries()[j].0@ == old(self).entries()[j].0@);
                return;
            }
            i = i + 1;
        }
        assert(self.annotation_index(key@) is None);
        self.annotations.push((key, value));
    }

    /// The index of `key` among the annotations, if present.
    pub open spec fn annotation_index(&self, key: Seq<char>) -> Option<int> {
        if exists|i: int| 0 <= i < self.entries().len() && #[trigger] self.entries()[i].0@ == key {
            Some(choose|i: int| 0 <= i < self.entries().len() && #[trigger] self.entries()[i].0@ == key)
        } else {
            None
        }
    }

    proof fn lemma_index_unique(&self, key: Seq<char>, i: int)
        requires
            self.wf(),
            0 <= i < self.entries().len(),
            self.entries()[i].0@ == key,
        ensures
            self.annotation_index(key) == Some(i),
    {
        let k = choose|k: int| 0 <= k < self.entries().len() && #[trigger] self.entries()[k].0@ == key;
        assert(k == i) by {
            if k < i {
                assert(self.entries()[k].0@ != self.entries()[i].0@);
            } else if k > i {
                assert(self.entries()[i].0@ != self.entries()[k].0@);
            }
        }
    }

    /// The value written last under `key`, if any.
    pub fn annotation(&self, key: &str) -> (r: Option<&String>)
        requires
            self.wf(),
        ensures
            match self.annotation_index(key@) {
                Some(i) => r is Some && r->Some_0@ == self.entries()[i].1@,
                None => r is None,
            },
    {
        let n = self.annotations.len();
        let mut i: usize = 0;
        while i < n
            invariant
                self.wf(),
                n == self.entries().len(),
                i <= n,
                forall|j: int| 0 <= j < i ==> self.entries()[j].0@ != key@,
            decreases n - i,
        {
            if same_text(self.annotations[i].0.as_str(), key) {
                proof {
                    self.lemma_index_unique(key@, i as int);
                }
                return Some(&self.annotations[i].1);
            }
            i = i + 1;
        }
        None
    }
}

} // verus!
