use vstd::prelude::*;
use wayland_client::protocol::wl_compositor::WlCompositor;
use wayland_client::protocol::wl_output::WlOutput;
use wayland_client::protocol::wl_shm::Format;
use wayland_client::protocol::wl_shm::WlShm;
use wayland_client::Proxy;
use wayland_protocols_wlr::layer_shell::v1::client::zwlr_layer_shell_v1::ZwlrLayerShellV1;

verus! {

/// Bytes that one pixel occupies in either format this client draws in.
pub const BYTES_PER_PIXEL: usize = 4;

/// The interface name under which the server announces its compositor.
///
/// Trusted: calls `<WlCompositor as Proxy>::interface` of `wayland-client` and
/// reads the `name` field, which the protocol file fixes as `wl_compositor`.
#[verifier::external_body]
fn compositor_interface() -> (name: &'static str)
    ensures
        name@ == "wl_compositor"@,
{
    <WlCompositor as Proxy>::interface().name
}

/// The interface name under which the server announces its shared-memory
/// factory.
///
/// Trusted: calls `<WlShm as Proxy>::interface` of `wayland-client` and reads
/// the `name` field, which the protocol file fixes as `wl_shm`.
#[verifier::external_body]
fn shm_interface() -> (name: &'static str)
    ensures
        name@ == "wl_shm"@,
{
    <WlShm as Proxy>::interface().name
}

/// The interface name under which the server announces its layer shell.
///
/// Trusted: calls `<ZwlrLayerShellV1 as Proxy>::interface` of
/// `wayland-protocols-wlr` and reads the `name` field, which the protocol file
/// fixes as `zwlr_layer_shell_v1`.
#[verifier::external_body]
fn layer_shell_interface() -> (name: &'static str)
    ensures
        name@ == "zwlr_layer_shell_v1"@,
{
    <ZwlrLayerShellV1 as Proxy>::interface().name
}

/// The interface name under which the server announces each output.
///
/// Trusted: calls `<WlOutput as Proxy>::interface` of `wayland-client` and
/// reads the `name` field, which the protocol file fixes as `wl_output`.
#[verifier::external_body]
fn output_interface() -> (name: &'static str)
    ensures
        name@ == "wl_output"@,
{
    <WlOutput as Proxy>::interface().name
}

/// The number that stands for 32-bit ARGB on the wire.
///
/// Trusted: calls `u32::from` on `wl_shm::Format::Argb8888` of
/// `wayland-client`, which casts the variant to its protocol value, 0.
#[verifier::external_body]
fn argb8888_code() -> (code: u32)
    ensures
        code == 0,
{
    u32::from(Format::Argb8888)
}

/// The number that stands for 32-bit RGBA on the wire.
///
/// Trusted: calls `u32::from` on `wl_shm::Format::Rgba8888` of
/// `wayland-client`, which casts the variant to its protocol value,
/// 0x34324152.
#[verifier::external_body]
fn rgba8888_code() -> (code: u32)
    ensures
        code == 0x34324152,
{
    u32::from(Format::Rgba8888)
}

/// The four kinds of global this client looks for.
#[derive(Debug, Clone, Copy, PartialEq, Eq, Structural)]
pub enum Global {
    Compositor,
    Shm,
    LayerShell,
    Output,
}

impl Global {
    /// The interface name of this kind of global.
    pub open spec fn spec_name(self) -> Seq<char> {
        match self {
            Global::Compositor => "wl_compositor"@,
            Global::Shm => "wl_shm"@,
            Global::LayerShell => "zwlr_layer_shell_v1"@,
            Global::Output => "wl_output"@,
        }
    }

    pub fn name(self) -> (name: &'static str)
        ensures
            name@ == self.spec_name(),
    {
        match self {
            Global::Compositor => compositor_interface(),
            Global::Shm => shm_interface(),
            Global::LayerShell => layer_shell_interface(),
            Global::Output => output_interface(),
        }
    }

    /// The kind of global that an interface name stands for, if any.
    pub open spec fn spec_classify(interface: Seq<char>) -> Option<Global> {
        if interface == Global::Compositor.spec_name() {
            Some(Global::Compositor)
        } else if interface == Global::Shm.spec_name() {
            Some(Global::Shm)
        } else if interface == Global::LayerShell.spec_name() {
            Some(Global::LayerShell)
        } else if interface == Global::Output.spec_name() {
            Some(Global::Output)
        } else {
            None
        }
    }

    pub fn classify(interface: &String) -> (kind: Option<Global>)
        ensures
            kind == Global::spec_classify(interface@),
    {
        if *interface == Global::Compositor.name().to_owned() {
            Some(Global::Compositor)
        } else if *interface == Global::Shm.name().to_owned() {
            Some(Global::Shm)
        } else if *interface == Global::LayerShell.name().to_owned() {
            Some(Global::LayerShell)
        } else if *interface == Global::Output.name().to_owned() {
            Some(Global::Output)
        } else {
            None
        }
    }

    /// No two kinds share an interface name, so an announcement is of one kind
    /// at most and `spec_classify` undoes `spec_name`.
    pub proof fn names_are_distinct(a: Global, b: Global)
        ensures
            a.spec_name() == b.spec_name() <==> a == b,
            Global::spec_classify(a.spec_name()) == Some(a),
    {
        reveal_strlit("wl_compositor");
        reveal_strlit("wl_shm");
        reveal_strlit("zwlr_layer_shell_v1");
        reveal_strlit("wl_output");
        assert("wl_compositor"@.len() == 13);
        assert("wl_shm"@.len() == 6);
        assert("zwlr_layer_shell_v1"@.len() == 19);
        assert("wl_output"@.len() == 9);
    }
}

/// The two 32-bit, four-byte pixel layouts this client can draw in.
#[derive(Debug, Clone, Copy, PartialEq, Eq, Structural)]
pub enum PixelFormat {
    Argb8888,
    Rgba8888,
}

impl PixelFormat {
    /// The number that stands for this format on the wire.
    pub open spec fn spec_code(self) -> u32 {
        match self {
            PixelFormat::Argb8888 => 0,
            PixelFormat::Rgba8888 => 0x34324152,
        }
    }

    pub fn code(self) -> (code: u32)
        ensures
            code == self.spec_code(),
    {
        match self {
            PixelFormat::Argb8888 => argb8888_code(),
            PixelFormat::Rgba8888 => rgba8888_code(),
        }
    }

    /// The format that a wire number stands for, if it is one of the two.
    pub open spec fn spec_from_code(code: u32) -> Option<PixelFormat> {
        if code == PixelFormat::Argb8888.spec_code() {
            Some(PixelFormat::Argb8888)
        } else if code == PixelFormat::Rgba8888.spec_code() {
            Some(PixelFormat::Rgba8888)
        } else {
            None
        }
    }

    pub fn from_code(code: u32) -> (format: Option<PixelFormat>)
        ensures
            format == PixelFormat::spec_from_code(code),
    {
        if code == PixelFormat::Argb8888.code() {
            Some(PixelFormat::Argb8888)
        } else if code == PixelFormat::Rgba8888.code() {
            Some(PixelFormat::Rgba8888)
        } else {
            None
        }
    }
}

/// The stacking layers of the layer shell, lowest first.
#[derive(Debug, Clone, Copy, PartialEq, Eq, Structural)]
pub enum Layer {
    Background,
    Bottom,
    Top,
    Overlay,
}

/// A screen edge that an overlay surface can be anchored to.
#[derive(Debug, Clone, Copy, PartialEq, Eq, Structural)]
pub enum Anchor {
    Top,
    Bottom,
    Left,
    Right,
}

/// One thing the caller is asked to do on the state machines' behalf: a
/// request to put on the wire, an operation on the shared memory, a wait for
/// the server, or a call of the renderer.
#[allow(inconsistent_fields)]
#[derive(Debug, Clone, Copy, PartialEq, Eq, Structural)]
pub enum Action {
    /// Bind the global announced under `name` at `version`.
    Bind { global: Global, name: u32, version: u32 },
    /// Create the base surface.
    CreateSurface,
    /// Give the base surface the overlay role on `output`.
    GetLayerSurface { output: u32, layer: Layer },
    /// Ask for a size of the overlay surface.
    SetSize { width: u32, height: u32 },
    /// Anchor the overlay surface to an edge.
    SetAnchor { anchor: Anchor },
    /// Reserve screen space along the anchored edge.
    SetExclusiveZone { zone: i32 },
    /// Acknowledge the configure event that carried `serial`.
    AckConfigure { serial: u32 },
    /// Attach the current buffer to the base surface.
    Attach { x: i32, y: i32 },
    /// Mark a rectangle of the base surface as changed.
    Damage { x: i32, y: i32, width: i32, height: i32 },
    /// Commit the pending state of the base surface.
    Commit,
    /// Flush the requests and dispatch every event that is pending.
    Roundtrip,
    /// Create an anonymous shared-memory object of `len` bytes, unlink its
    /// name and map it.
    Allocate { len: usize },
    /// Set the length of the shared-memory object.
    Truncate { len: usize },
    /// Replace the mapping by one of `len` bytes.
    Remap { len: usize },
    /// Register the shared memory with the factory as a pool.
    CreatePool { size: i32 },
    /// Tell the server the pool's new size.
    ResizePool { size: i32 },
    /// Create a buffer object over a region of the pool.
    CreateBuffer { offset: i32, width: i32, height: i32, stride: i32, format: PixelFormat },
    /// Destroy the current buffer object.
    DestroyBuffer,
    /// Let the renderer paint into the mapping, `pixels` long with rows of
    /// `stride` pixels.
    Render { pixels: usize, stride: usize },
}

/// The namespace every overlay surface of this client is created in.
pub fn namespace() -> (name: &'static str)
    ensures
        name@ == "namespace"@,
{
    "namespace"
}

/// What the registry says.
#[derive(Debug, Clone, PartialEq, Eq)]
pub enum RegistryEvent {
    Global { name: u32, interface: String, version: u32 },
    GlobalRemove { name: u32 },
    /// An event added by a later version of the protocol.
    Other,
}

/// What the shared-memory factory says.
#[derive(Debug, Clone, Copy, PartialEq, Eq, Structural)]
pub enum ShmEvent {
    Format { code: u32 },
    /// An event added by a later version of the protocol.
    Other,
}

/// What is heard while the globals are discovered.
#[derive(Debug, Clone, PartialEq, Eq)]
pub enum DiscoveryEvent {
    Registry(RegistryEvent),
    Shm(ShmEvent),
}

/// What an output says. All but `Mode` are accepted and ignored.
#[derive(Debug, Clone, Copy, PartialEq, Eq, Structural)]
pub enum OutputEvent {
    Mode { width: i32, height: i32 },
    Geometry,
    Done,
    Scale,
    Name,
    Description,
    /// An event added by a later version of the protocol.
    Other,
}

/// What a base surface says.
#[derive(Debug, Clone, Copy, PartialEq, Eq, Structural)]
pub enum SurfaceEvent {
    Enter { output: u32 },
    Leave { output: u32 },
    PreferredBufferScale,
    PreferredBufferTransform,
    /// An event added by a later version of the protocol.
    Other,
}

/// What an overlay surface says.
#[derive(Debug, Clone, Copy, PartialEq, Eq, Structural)]
pub enum LayerSurfaceEvent {
    Configure { serial: u32, width: u32, height: u32 },
    Closed,
    /// An event added by a later version of the protocol.
    Other,
}

/// What is heard by one window: events of its base surface, of its overlay
/// surface and of its buffer object.
#[derive(Debug, Clone, Copy, PartialEq, Eq, Structural)]
pub enum WindowEvent {
    Surface(SurfaceEvent),
    LayerSurface(LayerSurfaceEvent),
    Buffer(BufferEvent),
}

/// What a buffer object says.
#[derive(Debug, Clone, Copy, PartialEq, Eq, Structural)]
pub enum BufferEvent {
    Release,
    /// An event added by a later version of the protocol.
    Other,
}

} // verus!
