use weadless::builder::{
    plan_pipeline, BuildError, BuildEvent, BuildPhase, BuildRequest, PipelineBuilder, StartStep,
};
use weadless::encoder::{EncoderChoice, EncoderSupport};
use weadless::pipeline::{Protocol, Stage};
use weadless::video::{PixelFormat, VideoMode};

fn mode() -> VideoMode {
    VideoMode::new(PixelFormat::Rgbx8888, 640, 480, 30).unwrap()
}

/// Runs a build against a host, and counts what was asked of it.
fn run(address: &str, support: EncoderSupport, start: Result<(), StartStep>) -> (BuildRequest, u32, u32) {
    let (mut builder, mut request) = PipelineBuilder::begin(mode(), address, Protocol::Udp);
    let mut probes = 0;
    let mut starts = 0;
    loop {
        request = match request {
            BuildRequest::Probe(encoder) => {
                probes += 1;
                builder.step(BuildEvent::Probed { available: support.supports(encoder) }).unwrap()
            }
            BuildRequest::Assemble(_) => {
                starts += 1;
                let event = match start {
                    Ok(()) => BuildEvent::Started,
                    Err(step) => BuildEvent::StartFailed(step),
                };
                builder.step(event).unwrap()
            }
            done => return (done, probes, starts),
        };
    }
}

const NOTHING: EncoderSupport = EncoderSupport { vaapi: false, nvenc: false, x264: false, libav: false };
const SOFTWARE: EncoderSupport = EncoderSupport { vaapi: false, nvenc: false, x264: true, libav: true };

#[test]
fn an_invalid_address_fails_before_any_probe() {
    let (builder, request) = PipelineBuilder::begin(mode(), "not-an-address", Protocol::Udp);
    assert_eq!(request, BuildRequest::Failed(BuildError::InvalidAddress));
    assert_eq!(builder.phase(), BuildPhase::Failed(BuildError::InvalidAddress));
    assert!(builder.plan().is_none());
    let all = EncoderSupport { vaapi: true, nvenc: true, x264: true, libav: true };
    assert_eq!(
        run("not-an-address", all, Ok(())),
        (BuildRequest::Failed(BuildError::InvalidAddress), 0, 0)
    );
}

#[test]
fn a_failed_build_accepts_no_event() {
    let (mut builder, _) = PipelineBuilder::begin(mode(), "not-an-address", Protocol::Tcp);
    assert_eq!(builder.step(BuildEvent::Probed { available: true }), None);
    assert_eq!(builder.step(BuildEvent::Started), None);
    assert_eq!(builder.step(BuildEvent::StartFailed(StartStep::Play)), None);
    assert_eq!(builder.pending(), BuildRequest::Failed(BuildError::InvalidAddress));
}

#[test]
fn without_an_encoder_nothing_is_started() {
    let (request, probes, starts) = run("127.0.0.1:5000", NOTHING, Ok(()));
    assert_eq!(request, BuildRequest::Failed(BuildError::NoEncoderAvailable));
    assert_eq!(probes, 4);
    assert_eq!(starts, 0);
}

#[test]
fn probes_walk_the_preference_list_in_order() {
    let (mut builder, first) = PipelineBuilder::begin(mode(), "127.0.0.1:5000", Protocol::Udp);
    assert_eq!(first, BuildRequest::Probe(EncoderChoice::Vaapi));
    let no = BuildEvent::Probed { available: false };
    assert_eq!(builder.step(no), Some(BuildRequest::Probe(EncoderChoice::Nvenc)));
    assert_eq!(builder.step(no), Some(BuildRequest::Probe(EncoderChoice::X264)));
    assert_eq!(builder.step(no), Some(BuildRequest::Probe(EncoderChoice::Libav)));
    assert!(builder.plan().is_none());
    assert_eq!(builder.step(no), Some(BuildRequest::Failed(BuildError::NoEncoderAvailable)));
    assert_eq!(builder.step(no), None);
    assert!(builder.plan().is_none());
}

#[test]
fn the_missing_encoders_are_listed_with_the_error() {
    assert_eq!(
        BuildError::NoEncoderAvailable.alternatives(),
        vec![EncoderChoice::Vaapi, EncoderChoice::Nvenc, EncoderChoice::X264, EncoderChoice::Libav]
    );
    assert_eq!(BuildError::InvalidAddress.alternatives(), vec![]);
    assert_eq!(BuildError::PipelineStart(StartStep::Link).alternatives(), vec![]);
}

#[test]
fn the_first_available_encoder_is_assembled() {
    let (mut builder, _) = PipelineBuilder::begin(mode(), "10.0.0.2:6000", Protocol::Tcp);
    assert_eq!(
        builder.step(BuildEvent::Probed { available: false }),
        Some(BuildRequest::Probe(EncoderChoice::Nvenc))
    );
    assert_eq!(
        builder.step(BuildEvent::Probed { available: true }),
        Some(BuildRequest::Assemble(EncoderChoice::Nvenc))
    );
    let plan = builder.plan().unwrap();
    assert_eq!(plan.encoder, EncoderChoice::Nvenc);
    assert_eq!(plan.protocol, Protocol::Tcp);
    assert_eq!(plan.endpoint.host, "10.0.0.2");
    assert_eq!(plan.endpoint.port, 6000);
    assert_eq!(plan.mode.width(), 640);
    assert_eq!(builder.step(BuildEvent::Probed { available: true }), None);
    assert_eq!(builder.step(BuildEvent::Started), Some(BuildRequest::Ready));
    assert_eq!(builder.phase(), BuildPhase::Ready(EncoderChoice::Nvenc));
    assert!(builder.plan().is_some());
    assert_eq!(builder.step(BuildEvent::Started), None);
}

#[test]
fn the_build_settles_on_what_select_picks() {
    for bits in 0..16u8 {
        let support = EncoderSupport {
            vaapi: bits & 1 != 0,
            nvenc: bits & 2 != 0,
            x264: bits & 4 != 0,
            libav: bits & 8 != 0,
        };
        let (mut builder, mut request) = PipelineBuilder::begin(mode(), "h:1", Protocol::Udp);
        while let BuildRequest::Probe(e) = request {
            request = builder.step(BuildEvent::Probed { available: support.supports(e) }).unwrap();
        }
        match support.select() {
            Some(e) => assert_eq!(request, BuildRequest::Assemble(e)),
            None => assert_eq!(request, BuildRequest::Failed(BuildError::NoEncoderAvailable)),
        }
    }
}

#[test]
fn a_start_failure_names_its_step() {
    for step in [
        StartStep::Create(Stage::Source),
        StartStep::Create(Stage::Convert),
        StartStep::Create(Stage::Encode),
        StartStep::Create(Stage::Payload),
        StartStep::Create(Stage::Sink),
        StartStep::Add,
        StartStep::Link,
        StartStep::Play,
    ] {
        let (request, probes, starts) = run("127.0.0.1:5000", SOFTWARE, Err(step));
        assert_eq!(request, BuildRequest::Failed(BuildError::PipelineStart(step)));
        assert_eq!(probes, 3);
        assert_eq!(starts, 1);
    }
}

#[test]
fn a_good_build_ends_ready() {
    assert_eq!(run("127.0.0.1:5000", SOFTWARE, Ok(())), (BuildRequest::Ready, 3, 1));
}

#[test]
fn a_plan_for_a_known_host_names_the_preferred_encoder() {
    let plan = plan_pipeline(mode(), "example.org:7000", Protocol::Tcp, &SOFTWARE).unwrap();
    assert_eq!(plan.encoder, EncoderChoice::X264);
    assert_eq!(plan.protocol, Protocol::Tcp);
    assert_eq!(plan.endpoint.host, "example.org");
    assert_eq!(plan.endpoint.port, 7000);
    assert_eq!((plan.mode.width(), plan.mode.height(), plan.mode.rate()), (640, 480, 30));
    let hardware = EncoderSupport { vaapi: true, nvenc: false, x264: true, libav: false };
    let plan = plan_pipeline(mode(), "h:1", Protocol::Udp, &hardware).unwrap();
    assert_eq!(plan.encoder, EncoderChoice::Vaapi);
}

#[test]
fn a_plan_fails_on_the_address_before_the_encoders() {
    let all = EncoderSupport { vaapi: true, nvenc: true, x264: true, libav: true };
    assert_eq!(
        plan_pipeline(mode(), "not-an-address", Protocol::Udp, &all).err(),
        Some(BuildError::InvalidAddress)
    );
    assert_eq!(
        plan_pipeline(mode(), "not-an-address", Protocol::Udp, &NOTHING).err(),
        Some(BuildError::InvalidAddress)
    );
    assert_eq!(
        plan_pipeline(mode(), "127.0.0.1:5000", Protocol::Udp, &NOTHING).err(),
        Some(BuildError::NoEncoderAvailable)
    );
}
