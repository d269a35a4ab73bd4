//! The streaming pipeline as data: its stages, the element that fills each
//! stage, and the settings each element is made with.

use crate::address::{Endpoint, EndpointView};
use crate::encoder::EncoderChoice;
use crate::text::{ascii_lowered, chars_of, decimal, decimal_text, lowered_chars, same_chars};
use crate::video::{ModeView, VideoMode};
use vstd::prelude::*;
use vstd::string::*;

verus! {

/// Transport that carries the packetized stream.
#[derive(Clone, Copy, Debug, PartialEq, Eq, Structural)]
pub enum Protocol {
    /// Datagrams sent to the endpoint.
    Udp,
    /// A server socket at the endpoint that viewers connect to.
    Tcp,
}

/// One stage of the linear pipeline, in the order frames pass through.
#[derive(Clone, Copy, Debug, PartialEq, Eq, Structural)]
pub enum Stage {
    /// Where frames are injected.
    Source,
    /// Colour-space conversion.
    Convert,
    /// H.264 encoding.
    Encode,
    /// RTP packetizing.
    Payload,
    /// Transport.
    Sink,
}

/// Value of one element setting.
#[derive(Debug)]
pub enum SettingValue {
    Text(String),
    Int(i32),
    UInt(u32),
    Flag(bool),
}

/// A setting value, as a plain value.
pub enum ValueView {
    Text(Seq<char>),
    Int(i32),
    UInt(u32),
    Flag(bool),
}

/// One named setting of an element.
#[derive(Debug)]
pub struct Setting {
    pub name: &'static str,
    pub value: SettingValue,
}

/// A setting, as plain values.
pub struct SettingView {
    pub name: Seq<char>,
    pub value: ValueView,
}

/// What the source stage announces about its frames.
#[derive(Clone, Copy, Debug)]
pub struct SourceCaps {
    /// Media type; always raw video.
    pub media: &'static str,
    /// Name of the pixel layout.
    pub format: &'static str,
    pub width: u32,
    pub height: u32,
    /// Frames per second, as the numerator of a rate over one.
    pub rate: u32,
}

/// Payload type of the RTP stream.
pub const PAYLOAD_TYPE: u32 = 96;

/// Seconds between repeats of the stream parameters in the RTP stream.
pub const CONFIG_INTERVAL: i32 = 1;

/// A pipeline plan, as plain values.
pub struct PlanView {
    pub mode: ModeView,
    pub encoder: EncoderChoice,
    pub protocol: Protocol,
    pub endpoint: EndpointView,
}

/// Everything needed to construct the streaming pipeline.
#[derive(Debug)]
pub struct PipelinePlan {
    pub mode: VideoMode,
    pub encoder: EncoderChoice,
    pub protocol: Protocol,
    pub endpoint: Endpoint,
}

impl View for SettingValue {
    type V = ValueView;

    open spec fn view(&self) -> ValueView {
        match self {
            SettingValue::Text(s) => ValueView::Text(s@),
            SettingValue::Int(i) => ValueView::Int(*i),
            SettingValue::UInt(u) => ValueView::UInt(*u),
            SettingValue::Flag(b) => ValueView::Flag(*b),
        }
    }
}

impl View for Setting {
    type V = SettingView;

    open spec fn view(&self) -> SettingView {
        SettingView { name: self.name@, value: self.value@ }
    }
}

impl View for PipelinePlan {
    type V = PlanView;

    open spec fn view(&self) -> PlanView {
        PlanView {
            mode: self.mode@,
            encoder: self.encoder,
            protocol: self.protocol,
            endpoint: self.endpoint@,
        }
    }
}

/// The plain values of a list of settings.
pub open spec fn settings_view(settings: Seq<Setting>) -> Seq<SettingView> {
    Seq::new(settings.len(), |i: int| settings[i]@)
}

/// A text setting.
pub open spec fn text_setting(name: Seq<char>, value: Seq<char>) -> SettingView {
    SettingView { name, value: ValueView::Text(value) }
}

/// A signed integer setting.
pub open spec fn int_setting(name: Seq<char>, value: i32) -> SettingView {
    SettingView { name, value: ValueView::Int(value) }
}

/// An unsigned integer setting.
pub open spec fn uint_setting(name: Seq<char>, value: u32) -> SettingView {
    SettingView { name, value: ValueView::UInt(value) }
}

/// A yes-or-no setting.
pub open spec fn flag_setting(name: Seq<char>, value: bool) -> SettingView {
    SettingView { name, value: ValueView::Flag(value) }
}

impl Protocol {
    /// The protocol that `name` names, in any mix of ASCII upper and lower
    /// case.
    pub open spec fn named(name: Seq<char>) -> Option<Protocol> {
        if ascii_lowered(name) == "udp"@ {
            Some(Protocol::Udp)
        } else if ascii_lowered(name) == "tcp"@ {
            Some(Protocol::Tcp)
        } else {
            None
        }
    }

    /// The name of the protocol in small letters.
    pub open spec fn name_of(self) -> Seq<char> {
        match self {
            Protocol::Udp => "udp"@,
            Protocol::Tcp => "tcp"@,
        }
    }

    /// The factory of the sink element for this protocol.
    pub open spec fn sink_factory_of(self) -> Seq<char> {
        match self {
            Protocol::Udp => "udpsink"@,
            Protocol::Tcp => "tcpserversink"@,
        }
    }

    /// Reads a protocol name; `None` for any name but `udp` and `tcp`.
    pub fn parse(name: &str) -> (r: Option<Protocol>)
        ensures
            r == Protocol::named(name@),
    {
        let lowered = lowered_chars(name);
        let udp = chars_of("udp");
        let tcp = chars_of("tcp");
        if same_chars(lowered.as_slice(), udp.as_slice()) {
            Some(Protocol::Udp)
        } else if same_chars(lowered.as_slice(), tcp.as_slice()) {
            Some(Protocol::Tcp)
        } else {
            None
        }
    }

    /// The name of the protocol in small letters.
    pub fn name(self) -> (r: &'static str)
        ensures
            r@ == self.name_of(),
    {
        match self {
            Protocol::Udp => "udp",
            Protocol::Tcp => "tcp",
        }
    }
}

impl Stage {
    /// The stages in the order frames pass through them.
    pub open spec fn order() -> Seq<Stage> {
        seq![Stage::Source, Stage::Convert, Stage::Encode, Stage::Payload, Stage::Sink]
    }

    /// Exec form of [`Stage::order`].
    pub fn all() -> (r: Vec<Stage>)
        ensures
            r@ == Stage::order(),
    {
        let mut v: Vec<Stage> = Vec::new();
        v.push(Stage::Source);
        v.push(Stage::Convert);
        v.push(Stage::Encode);
        v.push(Stage::Payload);
        v.push(Stage::Sink);
        assert(v@ =~= Stage::order());
        v
    }
}

impl PlanView {
    /// The factory of the element that fills `stage`.
    pub open spec fn factory_of(self, stage: Stage) -> Seq<char> {
        match stage {
            Stage::Source => "appsrc"@,
            Stage::Convert => "videoconvert"@,
            Stage::Encode => self.encoder.factory_of(),
            Stage::Payload => "rtph264pay"@,
            Stage::Sink => self.protocol.sink_factory_of(),
        }
    }

    /// The settings of the encoder: each is tuned for the lowest latency it
    /// offers.
    pub open spec fn encoder_settings(self) -> Seq<SettingView> {
        match self.encoder {
            EncoderChoice::Vaapi => seq![text_setting("tune"@, "low-power"@)],
            EncoderChoice::Nvenc => seq![],
            EncoderChoice::X264 => seq![
                text_setting("tune"@, "zerolatency"@),
                text_setting("speed-preset"@, "ultrafast"@),
            ],
            EncoderChoice::Libav => seq![text_setting("preset"@, "ultrafast"@)],
        }
    }

    /// The settings of the sink. A TCP sink does not wait for the clock, so
    /// that a slow viewer cannot hold the pump back.
    pub open spec fn sink_settings(self) -> Seq<SettingView> {
        match self.protocol {
            Protocol::Udp => seq![
                text_setting("host"@, self.endpoint.host),
                int_setting("port"@, self.endpoint.port as i32),
            ],
            Protocol::Tcp => seq![
                text_setting("host"@, self.endpoint.host),
                int_setting("port"@, self.endpoint.port as i32),
                flag_setting("sync"@, false),
            ],
        }
    }

    /// The settings that the element of `stage` is made with.
    pub open spec fn settings_of(self, stage: Stage) -> Seq<SettingView> {
        match stage {
            Stage::Source => seq![
                text_setting("name"@, "source"@),
                text_setting("format"@, "time"@),
                flag_setting("is-live"@, true),
            ],
            Stage::Convert => seq![],
            Stage::Encode => self.encoder_settings(),
            Stage::Payload => seq![
                int_setting("config-interval"@, CONFIG_INTERVAL),
                uint_setting("pt"@, PAYLOAD_TYPE),
            ],
            Stage::Sink => self.sink_settings(),
        }
    }

    /// The address of the stream, written `protocol://host:port`.
    pub open spec fn url_of(self) -> Seq<char> {
        self.protocol.name_of() + "://"@ + self.endpoint.host + ":"@ + decimal_text(
            self.endpoint.port as nat,
        )
    }

    /// The command line with which a viewer receives the stream.
    pub open spec fn command_of(self) -> Seq<char> {
        match self.protocol {
            Protocol::Udp => "gst-launch-1.0 udpsrc port="@ + decimal_text(
                self.endpoint.port as nat,
            )
                + " caps=\"application/x-rtp,media=video,encoding-name=H264,payload=96\" ! rtph264depay ! avdec_h264 ! videoconvert ! autovideosink"@,
            Protocol::Tcp => "gst-launch-1.0 tcpclientsrc host="@ + self.endpoint.host + " port="@
                + decimal_text(self.endpoint.port as nat)
                + " ! application/x-rtp,encoding-name=H264,payload=96 ! rtph264depay ! h264parse ! avdec_h264 ! videoconvert ! autovideosink"@,
        }
    }
}

fn text(name: &'static str, value: &str) -> (r: Setting)
    ensures
        r@ == text_setting(name@, value@),
{
    Setting { name, value: SettingValue::Text(String::from_str(value)) }
}

impl PipelinePlan {
    /// The factory of the element that fills `stage`.
    pub fn factory(&self, stage: Stage) -> (r: &'static str)
        ensures
            r@ == self@.factory_of(stage),
    {
        match stage {
            Stage::Source => "appsrc",
            Stage::Convert => "videoconvert",
            Stage::Encode => self.encoder.factory_name(),
            Stage::Payload => "rtph264pay",
            Stage::Sink => match self.protocol {
                Protocol::Udp => "udpsink",
                Protocol::Tcp => "tcpserversink",
            },
        }
    }

    /// The settings that the element of `stage` is made with, in the order
    /// in which they are applied.
    pub fn settings(&self, stage: Stage) -> (r: Vec<Setting>)
        ensures
            settings_view(r@) == self@.settings_of(stage),
    {
        let mut v: Vec<Setting> = Vec::new();
        match stage {
            Stage::Source => {
                v.push(text("name", "source"));
                v.push(text("format", "time"));
                v.push(Setting { name: "is-live", value: SettingValue::Flag(true) });
            },
            Stage::Convert => {},
            Stage::Encode => match self.encoder {
                EncoderChoice::Vaapi => {
                    v.push(text("tune", "low-power"));
                },
                EncoderChoice::Nvenc => {},
                EncoderChoice::X264 => {
                    v.push(text("tune", "zerolatency"));
                    v.push(text("speed-preset", "ultrafast"));
                },
                EncoderChoice::Libav => {
                    v.push(text("preset", "ultrafast"));
                },
            },
            Stage::Payload => {
                v.push(Setting { name: "config-interval", value: SettingValue::Int(CONFIG_INTERVAL) });
                v.push(Setting { name: "pt", value: SettingValue::UInt(PAYLOAD_TYPE) });
            },
            Stage::Sink => {
                v.push(text("host", self.endpoint.host.as_str()));
                v.push(
                    Setting { name: "port", value: SettingValue::Int(self.endpoint.port as i32) },
                );
                match self.protocol {
                    Protocol::Udp => {},
                    Protocol::Tcp => {
                        v.push(Setting { name: "sync", value: SettingValue::Flag(false) });
                    },
                }
            },
        }
        assert(settings_view(v@) =~= self@.settings_of(stage));
        v
    }

    /// What the source stage announces: raw video in the mode's layout, size
    /// and rate.
    pub fn caps(&self) -> (r: SourceCaps)
        ensures
            r.media@ == "video/x-raw"@,
            r.format@ == self@.mode.format.name_of(),
            r.width == self@.mode.width,
            r.height == self@.mode.height,
            r.rate == self@.mode.rate,
    {
        SourceCaps {
            media: "video/x-raw",
            format: self.mode.format().name(),
            width: self.mode.width(),
            height: self.mode.height(),
            rate: self.mode.rate(),
        }
    }

    /// The address of the stream, written `protocol://host:port`.
    pub fn url(&self) -> (r: String)
        ensures
            r@ == self@.url_of(),
    {
        let mut s = String::from_str(self.protocol.name());
        s.append("://");
        s.append(self.endpoint.host.as_str());
        s.append(":");
        let port = decimal(self.endpoint.port as u64);
        s.append(port.as_str());
        s
    }

    /// The command line with which a viewer receives the stream.
    pub fn client_command(&self) -> (r: String)
        ensures
            r@ == self@.command_of(),
    {
        let port = decimal(self.endpoint.port as u64);
        match self.protocol {
            Protocol::Udp => {
                let mut s = String::from_str("gst-launch-1.0 udpsrc port=");
                s.append(port.as_str());
                s.append(
                    " caps=\"application/x-rtp,media=video,encoding-name=H264,payload=96\" ! rtph264depay ! avdec_h264 ! videoconvert ! autovideosink",
                );
                s
            },
            Protocol::Tcp => {
                let mut s = String::from_str("gst-launch-1.0 tcpclientsrc host=");
                s.append(self.endpoint.host.as_str());
                s.append(" port=");
                s.append(port.as_str());
                s.append(
                    " ! application/x-rtp,encoding-name=H264,payload=96 ! rtph264depay ! h264parse ! avdec_h264 ! videoconvert ! autovideosink",
                );
                s
            },
        }
    }
}

} // verus!
