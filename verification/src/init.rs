use std::collections::HashMap;
use vstd::prelude::*;

use crate::error::Error;
use crate::error::MissingError;
use crate::error::Violation;
use crate::gate::Mode;
use crate::gate::PrepareGateState;
use crate::reg::is_kind;
use crate::reg::is_not_kind;
use crate::reg::Bound;
use crate::reg::Registry;
use crate::wire::Global;

verus! {

/// Taking the globals of one kind out of a sequence leaves those of another
/// kind as they were.
proof fn lemma_other_kinds_stay(s: Seq<Bound>, taken: Global, kept: Global)
    requires
        taken != kept,
    ensures
        s.filter(is_not_kind(taken)).filter(is_kind(kept)) == s.filter(is_kind(kept)),
    decreases s.len(),
{
    reveal(Seq::filter);
    if s.len() > 0 {
        let front = s.drop_last();
        lemma_other_kinds_stay(front, taken, kept);
        if is_not_kind(taken)(s.last()) {
            front.filter(is_not_kind(taken)).lemma_filter_push(s.last(), is_kind(kept));
        }
    }
}

/// Every global found in a sequence by its kind is of that kind.
proof fn lemma_of_kind(s: Seq<Bound>, kind: Global)
    ensures
        forall|i: int|
            0 <= i < s.filter(is_kind(kind)).len() ==> (#[trigger] s.filter(is_kind(kind))[i]).global
                == kind,
{
    assert forall|i: int| 0 <= i < s.filter(is_kind(kind)).len() implies (#[trigger] s.filter(
        is_kind(kind),
    )[i]).global == kind by {
        s.lemma_filter_pred(is_kind(kind), i);
    }
}

/// What stands in the way of a bundle, looking at the compositor, the
/// factory and the layer shell in this order: the first of them that the
/// registry holds not once.
pub open spec fn first_unfit(reg: Registry) -> Option<Global> {
    if reg.of_kind(Global::Compositor).len() != 1 {
        Some(Global::Compositor)
    } else if reg.of_kind(Global::Shm).len() != 1 {
        Some(Global::Shm)
    } else if reg.of_kind(Global::LayerShell).len() != 1 {
        Some(Global::LayerShell)
    } else {
        None
    }
}

/// True where no two outputs that the registry holds share a name.
pub open spec fn outputs_distinct(reg: Registry) -> bool {
    forall|i: int, j: int|
        0 <= i < j < reg.of_kind(Global::Output).len() ==> (#[trigger] reg.of_kind(
            Global::Output,
        )[i]).name != (#[trigger] reg.of_kind(Global::Output)[j]).name
}

/// Draws the bundle of capabilities out of a registry that has heard every
/// announcement: the compositor, the factory and the layer shell, each held
/// exactly once, and every output. A capability that is not held is reported
/// as missing by its name; one that is held more than once is a violation.
/// The first of the three that is unfit decides. With the three in order, two
/// outputs under one name are a violation. The bundle begins the second
/// phase with no mode recorded.
pub fn init(reg: Registry) -> (r: Result<PrepareGateState, Error>)
    ensures
        r is Ok <==> first_unfit(reg) is None && outputs_distinct(reg),
        first_unfit(reg) is None && !outputs_distinct(reg) ==> r == Err::<PrepareGateState, Error>(
            Error::ProtocolViolation(Violation::DuplicateGlobal),
        ),
        first_unfit(reg) matches Some(kind) ==> if reg.of_kind(kind).len() == 0 {
            r matches Err(e) && e.is_missing(kind.spec_name())
        } else {
            r == Err::<PrepareGateState, Error>(
                Error::ProtocolViolation(Violation::DuplicateGlobal),
            )
        },
        r matches Ok(bundle) ==> {
            &&& bundle.wf()
            &&& bundle.compositor == reg.of_kind(Global::Compositor)[0]
            &&& bundle.shm == reg.of_kind(Global::Shm)[0]
            &&& bundle.layer_shell == reg.of_kind(Global::LayerShell)[0]
            &&& bundle.outputs@ == reg.of_kind(Global::Output)
            &&& bundle.modes@ == Map::<u32, Mode>::empty()
        },
{
    let mut reg = reg;
    let ghost all = reg.inner@;
    let compositor = match pull(&mut reg, Global::Compositor) {
        Err(e) => {
            return Err(e);
        },
        Ok(b) => b,
    };
    proof {
        lemma_other_kinds_stay(all, Global::Compositor, Global::Shm);
        lemma_other_kinds_stay(all, Global::Compositor, Global::LayerShell);
        lemma_other_kinds_stay(all, Global::Compositor, Global::Output);
    }
    let ghost rest = reg.inner@;
    let shm = match pull(&mut reg, Global::Shm) {
        Err(e) => {
            return Err(e);
        },
        Ok(b) => b,
    };
    proof {
        lemma_other_kinds_stay(rest, Global::Shm, Global::LayerShell);
        lemma_other_kinds_stay(rest, Global::Shm, Global::Output);
    }
    let ghost rest = reg.inner@;
    let layer_shell = match pull(&mut reg, Global::LayerShell) {
        Err(e) => {
            return Err(e);
        },
        Ok(b) => b,
    };
    proof {
        lemma_other_kinds_stay(rest, Global::LayerShell, Global::Output);
        lemma_of_kind(all, Global::Compositor);
        lemma_of_kind(all, Global::Shm);
        lemma_of_kind(all, Global::LayerShell);
    }
    let outputs = reg.pull_all(Global::Output);
    if !names_differ(&outputs) {
        return Err(Error::ProtocolViolation(Violation::DuplicateGlobal));
    }
    Ok(PrepareGateState { compositor, shm, layer_shell, outputs, modes: HashMap::new() })
}

/// Tells whether no two globals of `v` share a name.
fn names_differ(v: &Vec<Bound>) -> (differ: bool)
    ensures
        differ == forall|i: int, j: int|
            0 <= i < j < v@.len() ==> (#[trigger] v@[i]).name != (#[trigger] v@[j]).name,
{
    let mut j: usize = 0;
    while j < v.len()
        invariant
            j <= v.len(),
            forall|a: int, b: int| 0 <= a < b < j ==> (#[trigger] v@[a]).name != (#[trigger] v@[b]).name,
        decreases v.len() - j,
    {
        let mut i: usize = 0;
        while i < j
            invariant
                i <= j < v.len(),
                forall|a: int| 0 <= a < i ==> (#[trigger] v@[a]).name != v@[j as int].name,
            decreases j - i,
        {
            if v[i].name == v[j].name {
                return false;
            }
            i = i + 1;
        }
        j = j + 1;
    }
    true
}

/// Takes the one global of `kind` out, or says why there is not exactly one.
fn pull(reg: &mut Registry, kind: Global) -> (r: Result<Bound, Error>)
    ensures
        old(reg).of_kind(kind).len() == 1 ==> r == Ok::<Bound, Error>(old(reg).of_kind(kind)[0])
            && final(reg).inner@ == old(reg).not_of_kind(kind),
        old(reg).of_kind(kind).len() == 0 ==> (r matches Err(e) && e.is_missing(kind.spec_name())),
        old(reg).of_kind(kind).len() > 1 ==> r == Err::<Bound, Error>(
            Error::ProtocolViolation(Violation::DuplicateGlobal),
        ),
{
    match reg.pull_one(kind) {
        Some(b) => Ok(b),
        None => {
            if reg.count(kind) == 0 {
                Err(Error::MissingCapability(MissingError::new(kind.name())))
            } else {
                Err(Error::ProtocolViolation(Violation::DuplicateGlobal))
            }
        },
    }
}

} // verus!
