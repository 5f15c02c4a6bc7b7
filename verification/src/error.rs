use vstd::prelude::*;
use vstd::string::StringExecFns;

verus! {

/// Names a capability that the server was expected to offer and did not.
#[derive(Debug, Clone, PartialEq, Eq)]
pub struct MissingError(pub String);

impl View for MissingError {
    type V = Seq<char>;

    open spec fn view(&self) -> Seq<char> {
        self.0@
    }
}

impl MissingError {
    pub fn new(content: &str) -> (e: Self)
        ensures
            e@ == content@,
    {
        MissingError(content.to_owned())
    }

    /// The name of the capability that is absent.
    pub fn name(&self) -> (s: &String)
        ensures
            s@ == self@,
    {
        &self.0
    }

    /// The message shown to a person: the word `Missing`, a space, the name.
    pub fn to_string(&self) -> (s: String)
        ensures
            s@ == "Missing "@ + self@,
    {
        "Missing ".to_owned().concat(self.0.as_str())
    }
}

/// The ways in which either side can break the protocol's contract.
#[derive(Debug, Clone, Copy, PartialEq, Eq, Structural)]
pub enum Violation {
    /// A capability that is bound exactly once was announced a second time,
    /// or an output was announced under a name already recorded.
    DuplicateGlobal,
    /// An output reported a mode although one is already recorded for it.
    DuplicateMode,
    /// An output reported a mode with a negative dimension.
    InvalidMode,
    /// The server sent an event that this client has no use for.
    UnexpectedEvent,
    /// A surface was told about an output other than the one it is bound to.
    ForeignOutput,
    /// The server's configure event asks for another size than was requested.
    ConfigureMismatch,
    /// The server closed the overlay surface.
    SurfaceClosed,
    /// An operation was asked for in a state that does not allow it.
    OutOfOrder,
    /// A buffer's geometry does not match the memory that backs it.
    BufferGeometry,
}

impl Violation {
    /// What went wrong, in a few words.
    pub open spec fn spec_description(self) -> Seq<char> {
        match self {
            Violation::DuplicateGlobal => "global announced twice"@,
            Violation::DuplicateMode => "mode reported twice"@,
            Violation::InvalidMode => "mode with a negative dimension"@,
            Violation::UnexpectedEvent => "unexpected event"@,
            Violation::ForeignOutput => "event of another output"@,
            Violation::ConfigureMismatch => "configure event of another size"@,
            Violation::SurfaceClosed => "surface closed"@,
            Violation::OutOfOrder => "operation out of order"@,
            Violation::BufferGeometry => "buffer does not cover its memory"@,
        }
    }

    pub fn description(&self) -> (s: &'static str)
        ensures
            s@ == self.spec_description(),
    {
        match self {
            Violation::DuplicateGlobal => "global announced twice",
            Violation::DuplicateMode => "mode reported twice",
            Violation::InvalidMode => "mode with a negative dimension",
            Violation::UnexpectedEvent => "unexpected event",
            Violation::ForeignOutput => "event of another output",
            Violation::ConfigureMismatch => "configure event of another size",
            Violation::SurfaceClosed => "surface closed",
            Violation::OutOfOrder => "operation out of order",
            Violation::BufferGeometry => "buffer does not cover its memory",
        }
    }
}

/// Every failure of the bootstrap and of the steady state.
#[derive(Debug, Clone, PartialEq, Eq)]
pub enum Error {
    /// A required global was not advertised.
    MissingCapability(MissingError),
    /// Neither of the 32-bit formats this client draws in was advertised.
    UnsupportedPixelFormat,
    /// The contract of the wire protocol was broken.
    ProtocolViolation(Violation),
    /// Shared memory could not be sized, allocated or mapped.
    IoError,
    /// The connection to the display server failed.
    ConnectionError,
}

impl Error {
    /// True of `MissingCapability` carrying exactly `name`.
    pub open spec fn is_missing(self, name: Seq<char>) -> bool {
        self matches Error::MissingCapability(m) && m@ == name
    }

    /// A short description of the failure for a log line.
    pub fn describe(&self) -> (s: String)
        ensures
            self matches Error::MissingCapability(m) ==> s@ == "Missing "@ + m@,
            self == Error::UnsupportedPixelFormat ==> s@ == "unsupported pixel format"@,
            self matches Error::ProtocolViolation(v) ==> s@ == "protocol violation: "@
                + v.spec_description(),
            self == Error::IoError ==> s@ == "shared memory failure"@,
            self == Error::ConnectionError ==> s@ == "connection failure"@,
    {
        match self {
            Error::MissingCapability(m) => m.to_string(),
            Error::UnsupportedPixelFormat => "unsupported pixel format".to_owned(),
            Error::ProtocolViolation(v) => "protocol violation: ".to_owned().concat(
                v.description(),
            ),
            Error::IoError => "shared memory failure".to_owned(),
            Error::ConnectionError => "connection failure".to_owned(),
        }
    }
}

} // verus!
