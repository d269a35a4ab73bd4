//! The remote-framebuffer backend: how its server is set up, and what one
//! frame turns into on its way there.

use crate::convert::{rgb_of, triplets};
use crate::video::{ModeView, VideoMode};
use rustvncserver::server::ServerEvent;
use rustvncserver::VncServer;
use tokio::sync::mpsc::UnboundedReceiver;
use vstd::prelude::*;
use vstd::string::*;

verus! {

/// The server of the remote-framebuffer crate. Opaque here: the library makes
/// one and hands it on.
#[verifier::external_type_specification]
#[verifier::external_body]
pub struct ExVncServer(rustvncserver::VncServer);

/// What the server reports about its viewers. Opaque here.
#[verifier::external_type_specification]
#[verifier::external_body]
pub struct ExServerEvent(rustvncserver::server::ServerEvent);

/// The receiving end of the channel on which the server reports. Opaque here.
#[verifier::external_type_specification]
#[verifier::external_body]
#[verifier::reject_recursive_types(T)]
pub struct ExUnboundedReceiver<T>(tokio::sync::mpsc::UnboundedReceiver<T>);

/// Largest width or height that the remote-framebuffer protocol can express.
pub const MAX_EXTENT: u32 = 65535;

/// Why the framebuffer server cannot be launched.
#[derive(Clone, Copy, Debug, PartialEq, Eq, Structural)]
pub enum LaunchError {
    /// Port 0 names no port to listen on.
    PortUnusable,
    /// The mode is wider or higher than the protocol can express, or the
    /// machine can address.
    ExtentTooLarge,
}

/// Why a frame cannot be written to the framebuffer.
#[derive(Clone, Copy, Debug, PartialEq, Eq, Structural)]
pub enum FrameError {
    /// The mode is wider or higher than the protocol can express.
    ExtentTooLarge,
    /// The frame does not hold four bytes for every pixel of the mode.
    SizeMismatch,
}

/// A server setup, as plain values.
pub struct ConfigView {
    pub width: u16,
    pub height: u16,
    pub name: Seq<char>,
    pub password: Option<Seq<char>>,
    pub port: u16,
}

/// What the framebuffer server is made with and where it listens.
#[derive(Debug)]
pub struct ServerConfig {
    pub width: u16,
    pub height: u16,
    /// Display name announced to viewers.
    pub name: String,
    /// Password that viewers must give; `None` for no authentication.
    pub password: Option<String>,
    /// Port to listen on, on every interface.
    pub port: u16,
}

/// One write to the framebuffer, as plain values.
pub struct UpdateView {
    pub x: u16,
    pub y: u16,
    pub width: u16,
    pub height: u16,
    pub rgb: Seq<u8>,
}

/// One write to the framebuffer: a rectangle and its pixels as RGB triplets,
/// row by row.
#[derive(Debug)]
pub struct RegionUpdate {
    pub x: u16,
    pub y: u16,
    pub width: u16,
    pub height: u16,
    pub rgb: Vec<u8>,
}

/// A server that has been made and waits to be told to listen.
pub struct ServerLaunch {
    /// The server, with a framebuffer of `width` by `height` pixels.
    pub server: VncServer,
    /// Where the server reports viewers that come and go.
    pub events: UnboundedReceiver<ServerEvent>,
    pub width: u16,
    pub height: u16,
    /// Port to listen on, on every interface.
    pub port: u16,
    /// Whether viewers must give a password.
    pub authenticated: bool,
}

impl View for ServerConfig {
    type V = ConfigView;

    open spec fn view(&self) -> ConfigView {
        ConfigView {
            width: self.width,
            height: self.height,
            name: self.name@,
            password: text_view(self.password),
            port: self.port,
        }
    }
}

impl View for RegionUpdate {
    type V = UpdateView;

    open spec fn view(&self) -> UpdateView {
        UpdateView {
            x: self.x,
            y: self.y,
            width: self.width,
            height: self.height,
            rgb: self.rgb@,
        }
    }
}

/// The text of an optional string.
pub open spec fn text_view(text: Option<String>) -> Option<Seq<char>> {
    match text {
        Some(t) => Some(t@),
        None => None,
    }
}

/// The display name that every server announces.
pub open spec fn display_name() -> Seq<char> {
    "weadless"@
}

/// Whether a mode fits the protocol's sixteen-bit extents.
pub open spec fn extent_fits(mode: ModeView) -> bool {
    mode.width <= MAX_EXTENT && mode.height <= MAX_EXTENT
}

/// The setup of the server for a mode, a port and an optional password.
///
/// Port 0 is refused, and so is a mode that the protocol cannot express;
/// where both are wrong the port is reported.
pub open spec fn launch_plan(mode: ModeView, port: u16, password: Option<Seq<char>>) -> Result<
    ConfigView,
    LaunchError,
> {
    if port == 0 {
        Err(LaunchError::PortUnusable)
    } else if !extent_fits(mode) {
        Err(LaunchError::ExtentTooLarge)
    } else {
        Ok(
            ConfigView {
                width: mode.width as u16,
                height: mode.height as u16,
                name: display_name(),
                password,
                port,
            },
        )
    }
}

/// The write that delivers one whole frame: the full extent from the
/// origin, pixels converted to RGB triplets.
pub open spec fn frame_update(mode: ModeView, data: Seq<u8>) -> Result<UpdateView, FrameError> {
    if !extent_fits(mode) {
        Err(FrameError::ExtentTooLarge)
    } else if data.len() != 4 * mode.pixels() {
        Err(FrameError::SizeMismatch)
    } else {
        Ok(
            UpdateView {
                x: 0,
                y: 0,
                width: mode.width as u16,
                height: mode.height as u16,
                rgb: rgb_of(data, mode.format),
            },
        )
    }
}

impl ServerConfig {
    /// Whether viewers must authenticate.
    pub fn requires_password(&self) -> (r: bool)
        ensures
            r == self@.password is Some,
    {
        self.password.is_some()
    }
}

/// Decides how the framebuffer server is launched.
pub fn plan_launch(mode: &VideoMode, port: u16, password: Option<String>) -> (r: Result<
    ServerConfig,
    LaunchError,
>)
    ensures
        r is Ok <==> port != 0 && extent_fits(mode@),
        launch_plan(mode@, port, text_view(password)) == match r {
            Ok(config) => Ok(config@),
            Err(e) => Err(e),
        },
{
    if port == 0 {
        return Err(LaunchError::PortUnusable);
    }
    let width = mode.width();
    let height = mode.height();
    if width > MAX_EXTENT || height > MAX_EXTENT {
        return Err(LaunchError::ExtentTooLarge);
    }
    Ok(
        ServerConfig {
            width: width as u16,
            height: height as u16,
            name: String::from_str("weadless"),
            password,
            port,
        },
    )
}

/// Whether this machine can address the framebuffer of a mode: four bytes
/// for each pixel.
pub open spec fn addressable(mode: ModeView) -> bool {
    4 * mode.pixels() <= usize::MAX
}

/// Makes the server of a setup.
///
/// Calls `rustvncserver::VncServer::new` with the width, height, name and
/// password of `config`. That function allocates four bytes for each pixel,
/// twice, and computes the size in `usize`: the `requires` keeps the product
/// in range. Nothing is claimed of the server and the receiver it returns.
#[verifier::external_body]
fn new_server(config: ServerConfig) -> (r: (VncServer, UnboundedReceiver<ServerEvent>))
    requires
        4 * (config.width * config.height) <= usize::MAX,
{
    VncServer::new(config.width, config.height, config.name, config.password)
}

/// Makes the framebuffer server for a mode. The server does not listen yet:
/// the caller runs it on a context of its own.
///
/// Fails exactly when [`plan_launch`] does, or when this machine cannot
/// address the framebuffer, which counts as too large an extent.
pub fn launch(mode: &VideoMode, port: u16, password: Option<String>) -> (r: Result<
    ServerLaunch,
    LaunchError,
>)
    ensures
        r is Ok <==> port != 0 && extent_fits(mode@) && addressable(mode@),
        r matches Err(e) ==> e == (if port == 0 {
            LaunchError::PortUnusable
        } else {
            LaunchError::ExtentTooLarge
        }),
        r matches Ok(made) ==> {
            &&& made.width == mode@.width
            &&& made.height == mode@.height
            &&& made.port == port
            &&& made.authenticated == password is Some
        },
{
    let config = match plan_launch(mode, port, password) {
        Ok(config) => config,
        Err(e) => {
            return Err(e);
        },
    };
    let width = config.width;
    let height = config.height;
    let authenticated = config.requires_password();
    assert(width * height <= 65535 * 65535) by (nonlinear_arith)
        requires
            width <= 65535,
            height <= 65535,
    ;
    let bytes: u64 = 4 * (width as u64 * height as u64);
    if bytes > usize::MAX as u64 {
        return Err(LaunchError::ExtentTooLarge);
    }
    let (server, events) = new_server(config);
    Ok(ServerLaunch { server, events, width, height, port, authenticated })
}

/// Turns one fetched frame into the write that delivers it.
///
/// Succeeds exactly when the mode fits the protocol and the frame holds four
/// bytes for each of its pixels. The write then covers the whole frame from
/// the origin and carries three bytes for each pixel.
pub fn full_frame_update(mode: &VideoMode, data: &[u8]) -> (r: Result<RegionUpdate, FrameError>)
    ensures
        r is Ok <==> extent_fits(mode@) && data@.len() == 4 * mode@.pixels(),
        frame_update(mode@, data@) == match r {
            Ok(update) => Ok(update@),
            Err(e) => Err(e),
        },
        r matches Ok(update) ==> update@.rgb.len() == 3 * mode@.pixels(),
{
    let width = mode.width();
    let height = mode.height();
    if width > MAX_EXTENT || height > MAX_EXTENT {
        return Err(FrameError::ExtentTooLarge);
    }
    assert(width * height <= 65535 * 65535) by (nonlinear_arith)
        requires
            width <= 65535,
            height <= 65535,
    ;
    let expected: u64 = 4 * (width as u64 * height as u64);
    if data.len() as u64 != expected {
        return Err(FrameError::SizeMismatch);
    }
    let rgb = triplets(data, mode.format());
    Ok(RegionUpdate { x: 0, y: 0, width: width as u16, height: height as u16, rgb })
}

/// Pixel `i` of `data` starts with the bytes `r`, `g`, `b`.
pub open spec fn pixel_starts_with(data: Seq<u8>, i: int, r: u8, g: u8, b: u8) -> bool {
    data[4 * i] == r && data[4 * i + 1] == g && data[4 * i + 2] == b
}

/// A frame of one colour turns into a write of that colour: where every
/// pixel of a red-first frame starts with the bytes `r`, `g`, `b`, every
/// triplet of the write is `r`, `g`, `b`.
#[verifier::rlimit(40)]
pub proof fn solid_frame_stays_solid(mode: ModeView, data: Seq<u8>, r: u8, g: u8, b: u8)
    requires
        mode.valid(),
        mode.format.red_first(),
        frame_update(mode, data) is Ok,
        forall|i: int| 0 <= i < mode.pixels() ==> #[trigger] pixel_starts_with(data, i, r, g, b),
    ensures
        frame_update(mode, data)->Ok_0.rgb.len() == 3 * mode.pixels(),
        forall|j: int|
            0 <= j < 3 * mode.pixels() ==> #[trigger] frame_update(mode, data)->Ok_0.rgb[j] == (if j
                % 3 == 0 {
                r
            } else if j % 3 == 1 {
                g
            } else {
                b
            }),
{
    let rgb = frame_update(mode, data)->Ok_0.rgb;
    assert(rgb == rgb_of(data, mode.format));
    assert forall|j: int| 0 <= j < 3 * mode.pixels() implies #[trigger] rgb[j] == (if j % 3 == 0 {
        r
    } else if j % 3 == 1 {
        g
    } else {
        b
    }) by {
        let i = j / 3;
        assert(0 <= i < mode.pixels());
        assert(pixel_starts_with(data, i, r, g, b));
    }
}

} // verus!
