use std::collections::HashMap;
use vstd::prelude::*;

use crate::error::Error;
use crate::error::MissingError;
use crate::error::Violation;
use crate::mem;
use crate::out;
use crate::reg::Bound;
use crate::wire::Action;
use crate::wire::DiscoveryEvent;
use crate::wire::Global;
use crate::wire::Layer;
use crate::wire::OutputEvent;
use crate::wire::PixelFormat;
use crate::wire::RegistryEvent;
use crate::wire::ShmEvent;
use crate::window::Window;

verus! {

/// An output that was announced and is bound later, once it is known how
/// many there are.
#[derive(Debug, Clone, Copy, PartialEq, Eq, Structural)]
pub struct LazyBind {
    pub name: u32,
    pub version: u32,
}

impl LazyBind {
    pub fn new(name: u32, version: u32) -> (lazy: Self)
        ensures
            lazy.name == name,
            lazy.version == version,
    {
        Self { name, version }
    }

    /// The output as it is once bound.
    pub open spec fn spec_bind(self) -> Bound {
        Bound { global: Global::Output, name: self.name, version: self.version }
    }

    pub fn bind(&self) -> (bound: Bound)
        ensures
            bound == self.spec_bind(),
    {
        Bound { global: Global::Output, name: self.name, version: self.version }
    }
}

/// True where an output of this name is among `outputs`.
pub open spec fn announced(outputs: Seq<LazyBind>, name: u32) -> bool {
    exists|i: int| 0 <= i < outputs.len() && #[trigger] outputs[i].name == name
}

/// True where no two of `outputs` share a name.
pub open spec fn distinct(outputs: Seq<LazyBind>) -> bool {
    forall|i: int, j: int|
        0 <= i < j < outputs.len() ==> #[trigger] outputs[i].name != #[trigger] outputs[j].name
}

/// Why the first phase cannot be closed.
pub enum Failure {
    /// A capability of this kind was not announced.
    Missing(Global),
    /// Neither of the two formats was advertised.
    Format,
}

/// What the first phase has learnt so far.
#[verifier::ext_equal]
pub struct Discovery {
    pub compositor: Option<Bound>,
    pub shm: Option<Bound>,
    pub layer_shell: Option<Bound>,
    pub outputs: Seq<LazyBind>,
    pub supported: bool,
}

impl Discovery {
    /// Nothing is bound, no output is recorded and no format was seen.
    pub open spec fn initial() -> Discovery {
        Discovery {
            compositor: None,
            shm: None,
            layer_shell: None,
            outputs: Seq::empty(),
            supported: false,
        }
    }

    /// Each handle is of the kind its field says, and no output is recorded
    /// twice.
    pub open spec fn wf(self) -> bool {
        &&& self.compositor matches Some(b) ==> b.global == Global::Compositor
        &&& self.shm matches Some(b) ==> b.global == Global::Shm
        &&& self.layer_shell matches Some(b) ==> b.global == Global::LayerShell
        &&& distinct(self.outputs)
    }

    /// The handle that is held for a kind of global that is bound once.
    pub open spec fn slot(self, kind: Global) -> Option<Bound> {
        match kind {
            Global::Compositor => self.compositor,
            Global::Shm => self.shm,
            Global::LayerShell => self.layer_shell,
            Global::Output => None,
        }
    }

    /// True where the announcement of a global of `kind` under `name` is a
    /// second one: of a capability that is bound already, or of an output
    /// under a name that is recorded already.
    pub open spec fn repeats(self, kind: Global, name: u32) -> bool {
        match kind {
            Global::Output => announced(self.outputs, name),
            _ => self.slot(kind) is Some,
        }
    }

    /// The state once a global of `kind` is taken in: a capability is bound,
    /// an output is recorded behind those already there.
    pub open spec fn with(self, kind: Global, name: u32, version: u32) -> Discovery {
        let bound = Some(Bound { global: kind, name, version });
        match kind {
            Global::Compositor => Discovery { compositor: bound, ..self },
            Global::Shm => Discovery { shm: bound, ..self },
            Global::LayerShell => Discovery { layer_shell: bound, ..self },
            Global::Output => Discovery {
                outputs: self.outputs.push(LazyBind { name, version }),
                ..self
            },
        }
    }

    /// What an event does to the state, and what is answered.
    ///
    /// A global of no concern is passed over. The compositor, the factory and
    /// the layer shell are to be bound at once; for an output nothing is asked
    /// yet. A second announcement, as `repeats` says, is a violation and
    /// changes nothing. A format raises the flag where it is one of the two
    /// this client draws in. The removal of a global and any other event are
    /// violations too.
    pub open spec fn on_event(self, e: DiscoveryEvent) -> (Discovery, Result<Option<Action>, Error>) {
        match e {
            DiscoveryEvent::Registry(RegistryEvent::Global { name, interface, version }) => {
                match Global::spec_classify(interface@) {
                    None => (self, Ok(None)),
                    Some(kind) => if self.repeats(kind, name) {
                        (self, Err(Error::ProtocolViolation(Violation::DuplicateGlobal)))
                    } else if kind is Output {
                        (self.with(kind, name, version), Ok(None))
                    } else {
                        (
                            self.with(kind, name, version),
                            Ok(Some(Action::Bind { global: kind, name, version })),
                        )
                    },
                }
            },
            DiscoveryEvent::Shm(ShmEvent::Format { code }) => (
                Discovery {
                    supported: self.supported || PixelFormat::spec_from_code(code) is Some,
                    ..self
                },
                Ok(None),
            ),
            _ => (self, Err(Error::ProtocolViolation(Violation::UnexpectedEvent))),
        }
    }

    /// Why the phase cannot be closed in this state, if it cannot: the first
    /// capability that is absent, in the order compositor, factory, layer
    /// shell, or else the want of a format.
    pub open spec fn failure(self) -> Option<Failure> {
        if self.compositor is None {
            Some(Failure::Missing(Global::Compositor))
        } else if self.shm is None {
            Some(Failure::Missing(Global::Shm))
        } else if self.layer_shell is None {
            Some(Failure::Missing(Global::LayerShell))
        } else if !self.supported {
            Some(Failure::Format)
        } else {
            None
        }
    }

    /// The state after `events`, taken in one after the other; `None` where
    /// one of them is a violation.
    pub open spec fn run(self, events: Seq<DiscoveryEvent>) -> Option<Discovery>
        decreases events.len(),
    {
        if events.len() == 0 {
            Some(self)
        } else {
            match self.run(events.drop_last()) {
                None => None,
                Some(before) => {
                    let (after, answer) = before.on_event(events.last());
                    if answer is Ok {
                        Some(after)
                    } else {
                        None
                    }
                },
            }
        }
    }
}

/// True where `e` announces a global of `kind`.
pub open spec fn announces(e: DiscoveryEvent, kind: Global) -> bool {
    e matches DiscoveryEvent::Registry(RegistryEvent::Global { interface, .. })
        && Global::spec_classify(interface@) == Some(kind)
}

/// True where some event of `events` announces a global of `kind`.
pub open spec fn advertises(events: Seq<DiscoveryEvent>, kind: Global) -> bool {
    exists|i: int| 0 <= i < events.len() && announces(#[trigger] events[i], kind)
}

/// True where `e` advertises one of the two formats this client draws in.
pub open spec fn offers(e: DiscoveryEvent) -> bool {
    e matches DiscoveryEvent::Shm(ShmEvent::Format { code }) && PixelFormat::spec_from_code(code)
        is Some
}

/// True where some event of `events` advertises one of the two formats.
pub open spec fn offers_format(events: Seq<DiscoveryEvent>) -> bool {
    exists|i: int| 0 <= i < events.len() && offers(#[trigger] events[i])
}

impl Discovery {
    /// After any events without a violation, a capability is bound exactly
    /// where it was announced, and the flag is up exactly where one of the
    /// two formats was advertised.
    pub proof fn run_tracks_announcements(events: Seq<DiscoveryEvent>)
        requires
            Self::initial().run(events) is Some,
        ensures
            Self::initial().run(events)->Some_0.wf(),
            forall|kind: Global|
                kind != Global::Output ==> (#[trigger] Self::initial().run(events)->Some_0.slot(
                    kind,
                ) is Some <==> advertises(events, kind)),
            Self::initial().run(events)->Some_0.supported <==> offers_format(events),
        decreases events.len(),
    {
        let after = Self::initial().run(events)->Some_0;
        if events.len() > 0 {
            let earlier = events.drop_last();
            let last = events.last();
            let before = Self::initial().run(earlier)->Some_0;
            Self::run_tracks_announcements(earlier);
            assert forall|kind: Global| kind != Global::Output implies (#[trigger] after.slot(kind)
                is Some <==> advertises(events, kind)) by {
                assert(before.slot(kind) is Some <==> advertises(earlier, kind));
                if advertises(earlier, kind) {
                    let i = choose|i: int| 0 <= i < earlier.len() && announces(
                        #[trigger] earlier[i],
                        kind,
                    );
                    assert(events[i] == earlier[i]);
                }
                if advertises(events, kind) && !announces(last, kind) {
                    let i = choose|i: int| 0 <= i < events.len() && announces(
                        #[trigger] events[i],
                        kind,
                    );
                    assert(earlier[i] == events[i]);
                }
            }
            if offers_format(earlier) {
                let i = choose|i: int| 0 <= i < earlier.len() && offers(#[trigger] earlier[i]);
                assert(events[i] == earlier[i]);
            }
            if offers_format(events) && !offers(last) {
                let i = choose|i: int| 0 <= i < events.len() && offers(#[trigger] events[i]);
                assert(earlier[i] == events[i]);
            }
        }
    }

    /// Where the server announces the compositor, the factory and the layer
    /// shell but for one of them, the phase cannot be closed and the failure
    /// is the want of exactly that one, whatever else was announced or
    /// advertised. Its name is the name of no other kind.
    pub proof fn missing_capability_is_named(events: Seq<DiscoveryEvent>, missing: Global)
        requires
            Self::initial().run(events) is Some,
            missing != Global::Output,
            !advertises(events, missing),
            forall|kind: Global|
                kind != missing && kind != Global::Output ==> #[trigger] advertises(events, kind),
        ensures
            Self::initial().run(events)->Some_0.failure() == Some(Failure::Missing(missing)),
            forall|kind: Global|
                kind != missing ==> #[trigger] kind.spec_name() != missing.spec_name(),
    {
        let s = Self::initial().run(events)->Some_0;
        Self::run_tracks_announcements(events);
        assert(s.slot(Global::Compositor) is Some <==> advertises(events, Global::Compositor));
        assert(s.slot(Global::Shm) is Some <==> advertises(events, Global::Shm));
        assert(s.slot(Global::LayerShell) is Some <==> advertises(events, Global::LayerShell));
        assert forall|kind: Global| kind != missing implies #[trigger] kind.spec_name()
            != missing.spec_name() by {
            Global::names_are_distinct(kind, missing);
        }
    }

    /// Where the factory advertises neither of the two formats, the phase
    /// cannot be closed; and where the three capabilities were announced, the
    /// failure is the want of a format, whatever else was announced.
    pub proof fn unsupported_format_is_reported(events: Seq<DiscoveryEvent>)
        requires
            Self::initial().run(events) is Some,
            !offers_format(events),
        ensures
            Self::initial().run(events)->Some_0.failure() is Some,
            advertises(events, Global::Compositor) && advertises(events, Global::Shm) && advertises(
                events,
                Global::LayerShell,
            ) ==> Self::initial().run(events)->Some_0.failure() == Some(Failure::Format),
    {
        let s = Self::initial().run(events)->Some_0;
        Self::run_tracks_announcements(events);
        assert(s.slot(Global::Compositor) is Some <==> advertises(events, Global::Compositor));
        assert(s.slot(Global::Shm) is Some <==> advertises(events, Global::Shm));
        assert(s.slot(Global::LayerShell) is Some <==> advertises(events, Global::LayerShell));
    }
}

/// The first phase of the bootstrap: the registry announces its globals and
/// the shared-memory factory its formats. The compositor, the factory and the
/// layer shell are bound as they are announced; outputs are recorded.
#[derive(Debug, Clone, PartialEq, Eq)]
pub struct InitialGateState {
    pub compositor: Option<Bound>,
    pub shm: Option<Bound>,
    pub layer_shell: Option<Bound>,
    pub outputs: Vec<LazyBind>,
    pub is_rgba8888_supported: bool,
}

impl View for InitialGateState {
    type V = Discovery;

    open spec fn view(&self) -> Discovery {
        Discovery {
            compositor: self.compositor,
            shm: self.shm,
            layer_shell: self.layer_shell,
            outputs: self.outputs@,
            supported: self.is_rgba8888_supported,
        }
    }
}

impl Default for InitialGateState {
    fn default() -> (state: Self)
        ensures
            state@ == Discovery::initial(),
            state@.wf(),
    {
        Self {
            compositor: None,
            shm: None,
            layer_shell: None,
            outputs: Vec::new(),
            is_rgba8888_supported: false,
        }
    }
}

impl InitialGateState {
    fn has_output(&self, name: u32) -> (found: bool)
        ensures
            found == announced(self.outputs@, name),
    {
        let mut i: usize = 0;
        while i < self.outputs.len()
            invariant
                i <= self.outputs.len(),
                forall|k: int| 0 <= k < i ==> self.outputs@[k].name != name,
            decreases self.outputs.len() - i,
        {
            if self.outputs[i].name == name {
                return true;
            }
            i = i + 1;
        }
        false
    }

    /// Takes in what the registry or the shared-memory factory says, as
    /// `Discovery::on_event` has it.
    pub fn event(&mut self, e: &DiscoveryEvent) -> (r: Result<Option<Action>, Error>)
        requires
            old(self)@.wf(),
        ensures
            final(self)@.wf(),
            (final(self)@, r) == old(self)@.on_event(*e),
    {
        match e {
            DiscoveryEvent::Shm(ShmEvent::Format { code }) => {
                if PixelFormat::from_code(*code).is_some() {
                    self.is_rgba8888_supported = true;
                }
                Ok(None)
            },
            DiscoveryEvent::Registry(RegistryEvent::Global { name, interface, version }) => {
                let kind = match Global::classify(interface) {
                    None => {
                        return Ok(None);
                    },
                    Some(kind) => kind,
                };
                let bound = Bound { global: kind, name: *name, version: *version };
                match kind {
                    Global::Compositor => {
                        if self.compositor.is_some() {
                            return Err(Error::ProtocolViolation(Violation::DuplicateGlobal));
                        }
                        self.compositor = Some(bound);
                    },
                    Global::Shm => {
                        if self.shm.is_some() {
                            return Err(Error::ProtocolViolation(Violation::DuplicateGlobal));
                        }
                        self.shm = Some(bound);
                    },
                    Global::LayerShell => {
                        if self.layer_shell.is_some() {
                            return Err(Error::ProtocolViolation(Violation::DuplicateGlobal));
                        }
                        self.layer_shell = Some(bound);
                    },
                    Global::Output => {
                        if self.has_output(*name) {
                            return Err(Error::ProtocolViolation(Violation::DuplicateGlobal));
                        }
                        self.outputs.push(LazyBind::new(*name, *version));
                        return Ok(None);
                    },
                }
                Ok(Some(bound.bind()))
            },
            _ => Err(Error::ProtocolViolation(Violation::UnexpectedEvent)),
        }
    }
}

/// The resolution of an output in pixels.
#[derive(Debug, Clone, Copy, PartialEq, Eq, Structural)]
pub struct Mode {
    pub width: usize,
    pub height: usize,
}

impl Mode {
    /// The extent of a buffer of this mode, four bytes to the pixel.
    pub open spec fn extent(self) -> mem::Size {
        mem::Size::spec_of_pixels(self.width, self.height)
    }

    /// The size that a surface of this mode asks for.
    pub open spec fn asked(self) -> out::Size {
        out::Size { width: self.width, height: self.height }
    }
}

/// The name reported where an output has no mode.
pub open spec fn output_mode() -> Seq<char> {
    "output mode"@
}

/// The second phase of the bootstrap: the capabilities are bound, and each
/// output reports its mode.
#[derive(Debug, Clone, PartialEq, Eq)]
pub struct PrepareGateState {
    pub compositor: Bound,
    pub shm: Bound,
    pub layer_shell: Bound,
    pub outputs: Vec<Bound>,
    pub modes: HashMap<u32, Mode>,
}

impl InitialGateState {
    /// Closes the first phase. It fails as `Discovery::failure` says: by
    /// naming the first capability that is absent, or, with all three
    /// present, for want of a format. Otherwise the capabilities and the
    /// outputs, in the order they were announced, go on to the second phase,
    /// which begins with no mode recorded. The outputs are to be bound as
    /// `PrepareGateState::binds` says.
    pub fn forward(self) -> (r: Result<PrepareGateState, Error>)
        requires
            self@.wf(),
        ensures
            r is Ok <==> self@.failure() is None,
            self@.failure() matches Some(Failure::Missing(kind)) ==> r matches Err(e)
                && e.is_missing(kind.spec_name()),
            self@.failure() == Some(Failure::Format) ==> r == Err::<PrepareGateState, Error>(
                Error::UnsupportedPixelFormat,
            ),
            r matches Ok(next) ==> {
                &&& next.wf()
                &&& Some(next.compositor) == self.compositor
                &&& Some(next.shm) == self.shm
                &&& Some(next.layer_shell) == self.layer_shell
                &&& next.outputs@.len() == self.outputs@.len()
                &&& forall|i: int|
                    0 <= i < self.outputs@.len() ==> #[trigger] next.outputs@[i]
                        == self.outputs@[i].spec_bind()
                &&& next.modes@ == Map::<u32, Mode>::empty()
            },
    {
        let compositor = match self.compositor {
            None => {
                return Err(Error::MissingCapability(MissingError::new(Global::Compositor.name())));
            },
            Some(b) => b,
        };
        let shm = match self.shm {
            None => {
                return Err(Error::MissingCapability(MissingError::new(Global::Shm.name())));
            },
            Some(b) => b,
        };
        let layer_shell = match self.layer_shell {
            None => {
                return Err(Error::MissingCapability(MissingError::new(Global::LayerShell.name())));
            },
            Some(b) => b,
        };
        if !self.is_rgba8888_supported {
            return Err(Error::UnsupportedPixelFormat);
        }
        let mut outputs: Vec<Bound> = Vec::new();
        let mut i: usize = 0;
        while i < self.outputs.len()
            invariant
                i <= self.outputs.len(),
                self@.wf(),
                outputs@.len() == i,
                forall|k: int| 0 <= k < i ==> #[trigger] outputs@[k] == self.outputs@[k].spec_bind(),
            decreases self.outputs.len() - i,
        {
            outputs.push(self.outputs[i].bind());
            i = i + 1;
        }
        Ok(PrepareGateState { compositor, shm, layer_shell, outputs, modes: HashMap::new() })
    }
}

impl PrepareGateState {
    /// Each handle is of the kind its field says, and no output is bound
    /// twice.
    pub open spec fn wf(&self) -> bool {
        &&& self.compositor.global == Global::Compositor
        &&& self.shm.global == Global::Shm
        &&& self.layer_shell.global == Global::LayerShell
        &&& forall|i: int| 0 <= i < self.outputs@.len() ==> (#[trigger] self.outputs@[i]).global
            == Global::Output
        &&& forall|i: int, j: int|
            0 <= i < j < self.outputs@.len() ==> (#[trigger] self.outputs@[i]).name != (
            #[trigger] self.outputs@[j]).name
    }

    /// The requests that bind the outputs, in the order they were announced.
    pub fn binds(&self) -> (plan: Vec<Action>)
        ensures
            plan@.len() == self.outputs@.len(),
            forall|i: int|
                0 <= i < self.outputs@.len() ==> #[trigger] plan@[i] == self.outputs@[i].spec_bind(),
    {
        let mut plan: Vec<Action> = Vec::new();
        let mut i: usize = 0;
        while i < self.outputs.len()
            invariant
                i <= self.outputs.len(),
                plan@.len() == i,
                forall|k: int| 0 <= k < i ==> #[trigger] plan@[k] == self.outputs@[k].spec_bind(),
            decreases self.outputs.len() - i,
        {
            plan.push(self.outputs[i].bind());
            i = i + 1;
        }
        plan
    }

    /// What an event of the output named `output` does to the modes on
    /// record. A mode is recorded once: a second one is a violation, as live
    /// changes of the mode are not provided for, and so is a mode with a
    /// negative dimension. Geometry, scale, name, description and the end of
    /// a batch are accepted and change nothing.
    pub open spec fn spec_event(modes: Map<u32, Mode>, output: u32, e: OutputEvent) -> Result<
        Map<u32, Mode>,
        Violation,
    > {
        match e {
            OutputEvent::Mode { width, height } => {
                if width < 0 || height < 0 {
                    Err(Violation::InvalidMode)
                } else if modes.contains_key(output) {
                    Err(Violation::DuplicateMode)
                } else {
                    Ok(modes.insert(output, Mode { width: width as usize, height: height as usize }))
                }
            },
            OutputEvent::Other => Err(Violation::UnexpectedEvent),
            _ => Ok(modes),
        }
    }

    /// Takes in what the output named `output` says, as `spec_event` has it.
    /// On a violation nothing changes.
    pub fn event(&mut self, output: u32, e: OutputEvent) -> (r: Result<(), Error>)
        requires
            old(self).wf(),
        ensures
            final(self).wf(),
            final(self).compositor == old(self).compositor,
            final(self).shm == old(self).shm,
            final(self).layer_shell == old(self).layer_shell,
            final(self).outputs == old(self).outputs,
            match Self::spec_event(old(self).modes@, output, e) {
                Ok(modes) => r == Ok::<(), Error>(()) && final(self).modes@ == modes,
                Err(v) => r == Err::<(), Error>(Error::ProtocolViolation(v)) && final(self).modes@
                    == old(self).modes@,
            },
    {
        match e {
            OutputEvent::Mode { width, height } => {
                if width < 0 || height < 0 {
                    return Err(Error::ProtocolViolation(Violation::InvalidMode));
                }
                if self.modes.contains_key(&output) {
                    return Err(Error::ProtocolViolation(Violation::DuplicateMode));
                }
                self.modes.insert(output, Mode { width: width as usize, height: height as usize });
                Ok(())
            },
            OutputEvent::Other => Err(Error::ProtocolViolation(Violation::UnexpectedEvent)),
            _ => Ok(()),
        }
    }
}

/// The third phase of the bootstrap: one window for each output.
#[derive(Debug, Clone, PartialEq, Eq)]
pub struct ReadyGateState {
    pub windows: Vec<Window>,
}

impl ReadyGateState {
    /// Every window is in order, and no two are on the same output.
    pub open spec fn wf(&self) -> bool {
        &&& forall|i: int| 0 <= i < self.windows@.len() ==> (#[trigger] self.windows@[i]).wf()
        &&& forall|i: int, j: int|
            0 <= i < j < self.windows@.len() ==> (#[trigger] self.windows@[i]).output != (
            #[trigger] self.windows@[j]).output
    }
}

impl PrepareGateState {
    /// True where an output has no mode on record.
    pub open spec fn unmoded(self) -> bool {
        exists|i: int|
            0 <= i < self.outputs@.len() && !self.modes@.contains_key(
                (#[trigger] self.outputs@[i]).name,
            )
    }

    /// The name of the first output, in the order they were announced, that
    /// has no mode on record.
    pub fn first_unmoded(&self) -> (name: Option<u32>)
        ensures
            name is Some <==> self.unmoded(),
            name matches Some(n) ==> exists|i: int|
                0 <= i < self.outputs@.len() && n == (#[trigger] self.outputs@[i]).name
                    && !self.modes@.contains_key(n) && forall|k: int|
                    0 <= k < i ==> self.modes@.contains_key((#[trigger] self.outputs@[k]).name),
    {
        let mut i: usize = 0;
        while i < self.outputs.len()
            invariant
                i <= self.outputs.len(),
                forall|k: int|
                    0 <= k < i ==> self.modes@.contains_key((#[trigger] self.outputs@[k]).name),
            decreases self.outputs.len() - i,
        {
            let name = self.outputs[i].name;
            if !self.modes.contains_key(&name) {
                return Some(name);
            }
            i = i + 1;
        }
        None
    }

    /// The mode on record for the output at `i`.
    pub open spec fn mode_of(self, i: int) -> Mode {
        self.modes@[self.outputs@[i].name]
    }

    /// True where the buffer of an output's mode would be empty or longer
    /// than the wire can say.
    pub open spec fn oversized(self) -> bool {
        exists|i: int|
            0 <= i < self.outputs@.len() && !(#[trigger] self.mode_of(i)).extent().fits_wire()
    }

    /// Closes the second phase. It fails for want of a mode where an output
    /// has none on record, whichever the others have; else for the shared
    /// memory where a mode's buffer does not fit. Otherwise there is one
    /// window for each output, in the order the outputs were announced, each
    /// on its own output and with a buffer of that output's mode.
    pub fn forward(self, layer: Layer) -> (r: Result<ReadyGateState, Error>)
        requires
            self.wf(),
        ensures
            self.unmoded() ==> (r matches Err(e) && e.is_missing(output_mode())),
            !self.unmoded() && self.oversized() ==> r == Err::<ReadyGateState, Error>(
                Error::IoError,
            ),
            r is Ok <==> !self.unmoded() && !self.oversized(),
            r matches Ok(ready) ==> {
                &&& ready.wf()
                &&& ready.windows@.len() == self.outputs@.len()
                &&& forall|i: int|
                    0 <= i < self.outputs@.len() ==> #[trigger] ready.windows@[i]
                        == Window::spec_new(self.outputs@[i].name, self.mode_of(i), layer)
                &&& forall|i: int|
                    0 <= i < self.outputs@.len() ==> (#[trigger] ready.windows@[i]).output
                        == self.outputs@[i].name && ready.windows@[i].mode == self.mode_of(i)
                        && ready.windows@[i].pool.shared.raw.len == self.mode_of(i).width
                        * self.mode_of(i).height * 4
            },
    {
        let mut modes: Vec<Mode> = Vec::new();
        let mut i: usize = 0;
        while i < self.outputs.len()
            invariant
                i <= self.outputs.len(),
                modes@.len() == i,
                forall|k: int|
                    0 <= k < i ==> self.modes@.contains_key((#[trigger] self.outputs@[k]).name),
                forall|k: int| 0 <= k < i ==> #[trigger] modes@[k] == self.mode_of(k),
            decreases self.outputs.len() - i,
        {
            match self.modes.get(&self.outputs[i].name) {
                None => {
                    return Err(Error::MissingCapability(MissingError::new("output mode")));
                },
                Some(mode) => modes.push(*mode),
            }
            i = i + 1;
        }
        let mut windows: Vec<Window> = Vec::new();
        let mut i: usize = 0;
        while i < self.outputs.len()
            invariant
                i <= self.outputs.len(),
                self.wf(),
                !self.unmoded(),
                modes@.len() == self.outputs@.len(),
                windows@.len() == i,
                forall|k: int|
                    0 <= k < self.outputs@.len() ==> #[trigger] modes@[k] == self.mode_of(k),
                forall|k: int| 0 <= k < i ==> (#[trigger] self.mode_of(k)).extent().fits_wire(),
                forall|k: int|
                    0 <= k < i ==> #[trigger] windows@[k] == Window::spec_new(
                        self.outputs@[k].name,
                        self.mode_of(k),
                        layer,
                    ),
                forall|k: int| 0 <= k < i ==> (#[trigger] windows@[k]).wf(),
                forall|k: int|
                    0 <= k < i ==> (#[trigger] windows@[k]).pool.shared.raw.len == self.mode_of(
                        k,
                    ).width * self.mode_of(k).height * 4,
            decreases self.outputs.len() - i,
        {
            match Window::new(self.outputs[i].name, modes[i], layer) {
                Err(e) => {
                    assert(!self.mode_of(i as int).extent().fits_wire());
                    return Err(e);
                },
                Ok(window) => windows.push(window),
            }
            i = i + 1;
        }
        Ok(ReadyGateState { windows })
    }
}

} // verus!
