use weadless::address::Endpoint;
use weadless::encoder::EncoderChoice;
use weadless::pipeline::{
    PipelinePlan, Protocol, Setting, SettingValue, Stage, CONFIG_INTERVAL, PAYLOAD_TYPE,
};
use weadless::video::{PixelFormat, VideoMode};

fn plan(encoder: EncoderChoice, protocol: Protocol) -> PipelinePlan {
    PipelinePlan {
        mode: VideoMode::new(PixelFormat::Bgrx8888, 1920, 1080, 60).unwrap(),
        encoder,
        protocol,
        endpoint: Endpoint { host: "127.0.0.1".to_string(), port: 5000 },
    }
}

fn shown(settings: Vec<Setting>) -> Vec<String> {
    settings
        .into_iter()
        .map(|s| match s.value {
            SettingValue::Text(t) => format!("{}={}", s.name, t),
            SettingValue::Int(i) => format!("{}={}i", s.name, i),
            SettingValue::UInt(u) => format!("{}={}u", s.name, u),
            SettingValue::Flag(b) => format!("{}={}", s.name, b),
        })
        .collect()
}

#[test]
fn protocol_names_are_read_in_any_case() {
    assert_eq!(Protocol::parse("udp"), Some(Protocol::Udp));
    assert_eq!(Protocol::parse("UDP"), Some(Protocol::Udp));
    assert_eq!(Protocol::parse("Tcp"), Some(Protocol::Tcp));
    assert_eq!(Protocol::parse("tcp"), Some(Protocol::Tcp));
    assert_eq!(Protocol::parse("sctp"), None);
    assert_eq!(Protocol::parse(""), None);
    assert_eq!(Protocol::parse("udp "), None);
    assert_eq!(Protocol::Udp.name(), "udp");
    assert_eq!(Protocol::Tcp.name(), "tcp");
}

#[test]
fn the_pipeline_has_five_stages_in_order() {
    assert_eq!(
        Stage::all(),
        vec![Stage::Source, Stage::Convert, Stage::Encode, Stage::Payload, Stage::Sink]
    );
}

#[test]
fn every_stage_has_its_element() {
    let p = plan(EncoderChoice::X264, Protocol::Udp);
    let names: Vec<&str> = Stage::all().into_iter().map(|s| p.factory(s)).collect();
    assert_eq!(names, vec!["appsrc", "videoconvert", "x264enc", "rtph264pay", "udpsink"]);
    let p = plan(EncoderChoice::Vaapi, Protocol::Tcp);
    let names: Vec<&str> = Stage::all().into_iter().map(|s| p.factory(s)).collect();
    assert_eq!(names, vec!["appsrc", "videoconvert", "vaapih264enc", "rtph264pay", "tcpserversink"]);
    assert_eq!(plan(EncoderChoice::Nvenc, Protocol::Udp).factory(Stage::Encode), "nvh264enc");
    assert_eq!(plan(EncoderChoice::Libav, Protocol::Udp).factory(Stage::Encode), "avenc_h264");
}

#[test]
fn encoders_are_tuned_for_low_latency() {
    let of = |e| shown(plan(e, Protocol::Udp).settings(Stage::Encode));
    assert_eq!(of(EncoderChoice::Vaapi), vec!["tune=low-power"]);
    assert_eq!(of(EncoderChoice::Nvenc), Vec::<String>::new());
    assert_eq!(of(EncoderChoice::X264), vec!["tune=zerolatency", "speed-preset=ultrafast"]);
    assert_eq!(of(EncoderChoice::Libav), vec!["preset=ultrafast"]);
}

#[test]
fn the_payloader_has_fixed_settings() {
    assert_eq!(PAYLOAD_TYPE, 96);
    assert_eq!(CONFIG_INTERVAL, 1);
    let p = plan(EncoderChoice::X264, Protocol::Udp);
    assert_eq!(shown(p.settings(Stage::Payload)), vec!["config-interval=1i", "pt=96u"]);
}

#[test]
fn the_sink_gets_host_and_port() {
    let p = plan(EncoderChoice::X264, Protocol::Udp);
    assert_eq!(shown(p.settings(Stage::Sink)), vec!["host=127.0.0.1", "port=5000i"]);
    let p = plan(EncoderChoice::X264, Protocol::Tcp);
    assert_eq!(shown(p.settings(Stage::Sink)), vec!["host=127.0.0.1", "port=5000i", "sync=false"]);
}

#[test]
fn source_and_converter_settings() {
    let p = plan(EncoderChoice::X264, Protocol::Udp);
    assert_eq!(shown(p.settings(Stage::Source)), vec!["name=source", "format=time", "is-live=true"]);
    assert_eq!(shown(p.settings(Stage::Convert)), Vec::<String>::new());
}

#[test]
fn the_source_announces_the_mode() {
    let caps = plan(EncoderChoice::X264, Protocol::Udp).caps();
    assert_eq!(caps.media, "video/x-raw");
    assert_eq!(caps.format, "BGRx");
    assert_eq!(caps.width, 1920);
    assert_eq!(caps.height, 1080);
    assert_eq!(caps.rate, 60);
}

#[test]
fn the_stream_url_names_protocol_host_and_port() {
    assert_eq!(plan(EncoderChoice::X264, Protocol::Udp).url(), "udp://127.0.0.1:5000");
    assert_eq!(plan(EncoderChoice::X264, Protocol::Tcp).url(), "tcp://127.0.0.1:5000");
}

#[test]
fn the_udp_client_command_is_exact() {
    assert_eq!(
        plan(EncoderChoice::X264, Protocol::Udp).client_command(),
        "gst-launch-1.0 udpsrc port=5000 caps=\"application/x-rtp,media=video,encoding-name=H264,payload=96\" ! rtph264depay ! avdec_h264 ! videoconvert ! autovideosink"
    );
}

#[test]
fn the_tcp_client_command_is_exact() {
    assert_eq!(
        plan(EncoderChoice::X264, Protocol::Tcp).client_command(),
        "gst-launch-1.0 tcpclientsrc host=127.0.0.1 port=5000 ! application/x-rtp,encoding-name=H264,payload=96 ! rtph264depay ! h264parse ! avdec_h264 ! videoconvert ! autovideosink"
    );
}
