use std::collections::VecDeque;
use vstd::prelude::*;

use crate::error::Error;
use crate::error::Violation;
use crate::wire::Action;
use crate::wire::Global;
use crate::wire::RegistryEvent;

verus! {

/// A global that was bound: its kind, the name the registry announced it
/// under, and the version it was bound at.
#[derive(Debug, Clone, Copy, PartialEq, Eq, Structural)]
pub struct Bound {
    pub global: Global,
    pub name: u32,
    pub version: u32,
}

impl Bound {
    /// The request that binds this global.
    pub open spec fn spec_bind(self) -> Action {
        Action::Bind { global: self.global, name: self.name, version: self.version }
    }

    pub fn bind(&self) -> (a: Action)
        ensures
            a == self.spec_bind(),
    {
        Action::Bind { global: self.global, name: self.name, version: self.version }
    }
}

/// The test for globals of one kind.
pub open spec fn is_kind(kind: Global) -> spec_fn(Bound) -> bool {
    |b: Bound| b.global == kind
}

/// The test for globals of every other kind.
pub open spec fn is_not_kind(kind: Global) -> spec_fn(Bound) -> bool {
    |b: Bound| b.global != kind
}

/// Holds an item where exactly one was offered, and nothing otherwise.
pub struct OnlyOne<T>(pub Option<T>);

impl<T> OnlyOne<T> {
    pub fn into_option(self) -> (o: Option<T>)
        ensures
            o == self.0,
    {
        self.0
    }

    /// The single item of `items`; nothing where there is none or more than
    /// one.
    pub fn from_iter(items: Vec<T>) -> (one: Self)
        ensures
            items@.len() == 1 ==> one.0 == Some(items@[0]),
            items@.len() != 1 ==> one.0 is None,
    {
        let mut items = items;
        if items.len() == 1 {
            OnlyOne(items.pop())
        } else {
            OnlyOne(None)
        }
    }
}

/// A bound object together with the events that have arrived for it and
/// have not been taken yet, oldest first.
#[derive(Debug, Clone, PartialEq, Eq)]
pub struct WithRx<E> {
    pub proxy: Bound,
    pub rx: VecDeque<E>,
}

impl<E> WithRx<E> {
    pub fn new(proxy: Bound) -> (wr: Self)
        ensures
            wr.proxy == proxy,
            wr.rx@ == Seq::<E>::empty(),
    {
        WithRx { proxy, rx: VecDeque::new() }
    }

    /// Takes the oldest event, if one is waiting.
    pub fn try_recv_event(&mut self) -> (e: Option<E>)
        ensures
            final(self).proxy == old(self).proxy,
            old(self).rx@.len() == 0 ==> e is None && final(self).rx@ == old(self).rx@,
            old(self).rx@.len() > 0 ==> e == Some(old(self).rx@[0]) && final(self).rx@ == old(
                self,
            ).rx@.drop_first(),
    {
        self.rx.pop_front()
    }

    /// The object the events belong to.
    pub fn proxy(&self) -> (p: &Bound)
        ensures
            *p == self.proxy,
    {
        &self.proxy
    }
}

/// Takes what the server says about an object and queues it for the object's
/// owner.
pub struct Stub;

impl Stub {
    /// Puts `e` behind the events that already wait in `u`.
    pub fn event<E>(e: E, u: &mut WithRx<E>)
        ensures
            final(u).proxy == old(u).proxy,
            final(u).rx@ == old(u).rx@.push(e),
    {
        u.rx.push_back(e);
    }
}

/// The globals bound so far, in the order they were announced.
#[derive(Debug, Clone, PartialEq, Eq)]
pub struct Registry {
    pub inner: Vec<Bound>,
}

/// Parts `v` into the globals of `kind` and the others, each in order.
fn partition(v: &Vec<Bound>, kind: Global) -> (r: (Vec<Bound>, Vec<Bound>))
    ensures
        r.0@ == v@.filter(is_kind(kind)),
        r.1@ == v@.filter(is_not_kind(kind)),
{
    let mut taken: Vec<Bound> = Vec::new();
    let mut kept: Vec<Bound> = Vec::new();
    let mut i: usize = 0;
    proof {
        reveal(Seq::filter);
        assert(v@.take(0) =~= Seq::<Bound>::empty());
    }
    while i < v.len()
        invariant
            i <= v.len(),
            taken@ == v@.take(i as int).filter(is_kind(kind)),
            kept@ == v@.take(i as int).filter(is_not_kind(kind)),
        decreases v.len() - i,
    {
        let b = v[i];
        proof {
            assert(v@.take(i + 1) =~= v@.take(i as int).push(b));
            v@.take(i as int).lemma_filter_push(b, is_kind(kind));
            v@.take(i as int).lemma_filter_push(b, is_not_kind(kind));
        }
        if b.global == kind {
            taken.push(b);
        } else {
            kept.push(b);
        }
        i = i + 1;
    }
    proof {
        assert(v@.take(v.len() as int) =~= v@);
    }
    (taken, kept)
}

impl Registry {
    pub fn new() -> (reg: Self)
        ensures
            reg.inner@ == Seq::<Bound>::empty(),
    {
        Self { inner: Vec::new() }
    }

    pub fn push(&mut self, wr: Bound)
        ensures
            final(self).inner@ == old(self).inner@.push(wr),
    {
        self.inner.push(wr)
    }

    /// The globals of `kind`, in the order they were announced.
    pub open spec fn of_kind(self, kind: Global) -> Seq<Bound> {
        self.inner@.filter(is_kind(kind))
    }

    /// The globals of every other kind, in the order they were announced.
    pub open spec fn not_of_kind(self, kind: Global) -> Seq<Bound> {
        self.inner@.filter(is_not_kind(kind))
    }

    /// How many globals of `kind` are held.
    pub fn count(&self, kind: Global) -> (n: usize)
        ensures
            n == self.of_kind(kind).len(),
    {
        let (taken, _) = partition(&self.inner, kind);
        taken.len()
    }

    /// Takes the global of `kind` out where exactly one is held. Where none
    /// or several are held, nothing is taken.
    pub fn pull_one(&mut self, kind: Global) -> (one: Option<Bound>)
        ensures
            old(self).of_kind(kind).len() == 1 ==> one == Some(old(self).of_kind(kind)[0])
                && final(self).inner@ == old(self).not_of_kind(kind),
            old(self).of_kind(kind).len() != 1 ==> one is None && final(self).inner@ == old(
                self,
            ).inner@,
    {
        let (taken, kept) = partition(&self.inner, kind);
        match OnlyOne::from_iter(taken).into_option() {
            Some(b) => {
                self.inner = kept;
                Some(b)
            },
            None => None,
        }
    }

    /// Takes every global of `kind` out. The others stay, in their order.
    pub fn pull_all(&mut self, kind: Global) -> (all: Vec<Bound>)
        ensures
            all@ == old(self).of_kind(kind),
            final(self).inner@ == old(self).not_of_kind(kind),
    {
        let (taken, kept) = partition(&self.inner, kind);
        self.inner = kept;
        taken
    }

    /// Takes in what the registry says. A global of one of the four kinds is
    /// recorded and is to be bound at once; any other is passed over. The
    /// removal of a global is not provided for, nor is any other event.
    pub fn event(&mut self, e: &RegistryEvent) -> (r: Result<Option<Action>, Error>)
        ensures
            match *e {
                RegistryEvent::Global { name, interface, version } => match Global::spec_classify(
                    interface@,
                ) {
                    Some(global) => {
                        &&& r == Ok::<Option<Action>, Error>(
                            Some(Action::Bind { global, name, version }),
                        )
                        &&& final(self).inner@ == old(self).inner@.push(
                            Bound { global, name, version },
                        )
                    },
                    None => r == Ok::<Option<Action>, Error>(None) && final(self).inner@ == old(
                        self,
                    ).inner@,
                },
                _ => {
                    &&& r == Err::<Option<Action>, Error>(
                        Error::ProtocolViolation(Violation::UnexpectedEvent),
                    )
                    &&& final(self).inner@ == old(self).inner@
                },
            },
    {
        match e {
            RegistryEvent::Global { name, interface, version } => {
                match Global::classify(interface) {
                    Some(global) => {
                        let bound = Bound { global, name: *name, version: *version };
                        self.inner.push(bound);
                        Ok(Some(bound.bind()))
                    },
                    None => Ok(None),
                }
            },
            _ => Err(Error::ProtocolViolation(Violation::UnexpectedEvent)),
        }
    }
}

} // verus!
