//! Building the streaming pipeline, one decision at a time.
//!
//! The builder never touches the media toolkit. It says what to do next (probe
//! for an encoder, assemble and start the pipeline) and is told how that went.
//! The caller carries each request out and hands the answer to
//! [`PipelineBuilder::step`].

use crate::address::{endpoint_of, parse_address, Endpoint, EndpointView};
use crate::encoder::{EncoderChoice, EncoderSupport};
use crate::pipeline::{PipelinePlan, PlanView, Protocol, Stage};
use crate::video::{ModeView, VideoMode};
use vstd::pervasive::unreached;
use vstd::prelude::*;

verus! {

/// The operation at which starting the pipeline failed.
#[derive(Clone, Copy, Debug, PartialEq, Eq, Structural)]
pub enum StartStep {
    /// Making the element of a stage.
    Create(Stage),
    /// Adding the elements to the pipeline.
    Add,
    /// Linking the elements in order.
    Link,
    /// Setting the pipeline to playing.
    Play,
}

/// Why no streaming pipeline could be built.
#[derive(Clone, Copy, Debug, PartialEq, Eq, Structural)]
pub enum BuildError {
    /// The address is not a non-empty host, a `:` and a port.
    InvalidAddress,
    /// The host has none of the encoders on the preference list.
    NoEncoderAvailable,
    /// Starting the pipeline failed at the named step.
    PipelineStart(StartStep),
}

/// What the caller is asked to do next.
#[derive(Clone, Copy, Debug, PartialEq, Eq, Structural)]
pub enum BuildRequest {
    /// Find out whether the host can instantiate this encoder.
    Probe(EncoderChoice),
    /// Construct the pipeline of [`PipelineBuilder::plan`] and start it.
    Assemble(EncoderChoice),
    /// Nothing more: the pipeline runs.
    Ready,
    /// Nothing more: the build failed.
    Failed(BuildError),
}

/// How a request went.
#[derive(Clone, Copy, Debug, PartialEq, Eq, Structural)]
pub enum BuildEvent {
    /// Answer to `Probe`.
    Probed { available: bool },
    /// Answer to `Assemble`: the pipeline is playing.
    Started,
    /// Answer to `Assemble`: the pipeline could not be started.
    StartFailed(StartStep),
}

/// Where a build stands.
#[derive(Clone, Copy, Debug, PartialEq, Eq, Structural)]
pub enum BuildPhase {
    /// Waiting to hear whether an encoder is available.
    Probing(EncoderChoice),
    /// Waiting to hear whether the pipeline started.
    Assembling(EncoderChoice),
    /// Done; the pipeline runs with this encoder.
    Ready(EncoderChoice),
    /// Done; the build failed.
    Failed(BuildError),
}

/// A builder, as plain values.
pub struct BuilderView {
    pub mode: ModeView,
    pub protocol: Protocol,
    /// The parsed address; `None` where the address was invalid.
    pub endpoint: Option<EndpointView>,
    pub phase: BuildPhase,
}

/// Decides how the streaming pipeline is built.
pub struct PipelineBuilder {
    mode: VideoMode,
    protocol: Protocol,
    endpoint: Option<Endpoint>,
    phase: BuildPhase,
}

impl BuildError {
    /// The encoders of which one has to be installed to get past this error:
    /// the whole preference list for `NoEncoderAvailable`, nothing otherwise.
    pub open spec fn alternatives_of(self) -> Seq<EncoderChoice> {
        match self {
            BuildError::NoEncoderAvailable => EncoderChoice::preference(),
            _ => seq![],
        }
    }

    /// Exec form of [`BuildError::alternatives_of`].
    pub fn alternatives(self) -> (r: Vec<EncoderChoice>)
        ensures
            r@ == self.alternatives_of(),
    {
        match self {
            BuildError::NoEncoderAvailable => EncoderChoice::candidates(),
            _ => {
                let v: Vec<EncoderChoice> = Vec::new();
                assert(v@ =~= self.alternatives_of());
                v
            },
        }
    }
}

impl BuildPhase {
    /// The request that is outstanding in this phase.
    pub open spec fn request(self) -> BuildRequest {
        match self {
            BuildPhase::Probing(e) => BuildRequest::Probe(e),
            BuildPhase::Assembling(e) => BuildRequest::Assemble(e),
            BuildPhase::Ready(_) => BuildRequest::Ready,
            BuildPhase::Failed(err) => BuildRequest::Failed(err),
        }
    }

    /// Whether the build is over, one way or the other.
    pub open spec fn finished(self) -> bool {
        self is Ready || self is Failed
    }

    /// The phase after `event`, or `None` where `event` does not answer the
    /// outstanding request.
    ///
    /// An available encoder is taken at once; an unavailable one gives way to
    /// the next on the preference list, and the last one to the failure.
    pub open spec fn after(self, event: BuildEvent) -> Option<BuildPhase> {
        match (self, event) {
            (BuildPhase::Probing(e), BuildEvent::Probed { available }) => if available {
                Some(BuildPhase::Assembling(e))
            } else {
                match e.successor() {
                    Some(n) => Some(BuildPhase::Probing(n)),
                    None => Some(BuildPhase::Failed(BuildError::NoEncoderAvailable)),
                }
            },
            (BuildPhase::Assembling(e), BuildEvent::Started) => Some(BuildPhase::Ready(e)),
            (BuildPhase::Assembling(_), BuildEvent::StartFailed(step)) => Some(
                BuildPhase::Failed(BuildError::PipelineStart(step)),
            ),
            _ => None,
        }
    }

    /// The phase in which a build begins: the failure for an invalid
    /// address, else the probe for the most preferred encoder.
    pub open spec fn initial(address: Seq<char>) -> BuildPhase {
        if endpoint_of(address) is Some {
            BuildPhase::Probing(EncoderChoice::Vaapi)
        } else {
            BuildPhase::Failed(BuildError::InvalidAddress)
        }
    }

    /// The phase reached from this one by `events`, in order. An event that
    /// does not answer the outstanding request changes nothing.
    pub open spec fn after_all(self, events: Seq<BuildEvent>) -> BuildPhase
        decreases events.len(),
    {
        if events.len() == 0 {
            self
        } else {
            let before = self.after_all(events.drop_last());
            match before.after(events.last()) {
                Some(next) => next,
                None => before,
            }
        }
    }

    /// The requests made in answer to `events`, one for each event that
    /// answered the request outstanding when it came.
    pub open spec fn requests(self, events: Seq<BuildEvent>) -> Seq<BuildRequest>
        decreases events.len(),
    {
        if events.len() == 0 {
            seq![]
        } else {
            let before = self.after_all(events.drop_last());
            let earlier = self.requests(events.drop_last());
            match before.after(events.last()) {
                Some(next) => earlier.push(next.request()),
                None => earlier,
            }
        }
    }
}

impl BuilderView {
    /// A well-formed builder knows its endpoint unless the address was bad,
    /// and then it has failed for that reason.
    pub open spec fn well_formed(self) -> bool {
        &&& self.mode.valid()
        &&& self.endpoint is None <==> self.phase == BuildPhase::Failed(BuildError::InvalidAddress)
    }

    /// The plan of the pipeline, once an encoder is chosen.
    pub open spec fn plan_of(self) -> Option<PlanView> {
        match (self.phase, self.endpoint) {
            (BuildPhase::Assembling(encoder), Some(endpoint)) => Some(
                PlanView { mode: self.mode, encoder, protocol: self.protocol, endpoint },
            ),
            (BuildPhase::Ready(encoder), Some(endpoint)) => Some(
                PlanView { mode: self.mode, encoder, protocol: self.protocol, endpoint },
            ),
            _ => None,
        }
    }
}

impl View for PipelineBuilder {
    type V = BuilderView;

    closed spec fn view(&self) -> BuilderView {
        BuilderView {
            mode: self.mode@,
            protocol: self.protocol,
            endpoint: match self.endpoint {
                Some(e) => Some(e@),
                None => None,
            },
            phase: self.phase,
        }
    }
}

impl PipelineBuilder {
    #[verifier::type_invariant]
    spec fn well_formed(self) -> bool {
        self@.well_formed()
    }

    /// Begins a build and says what to do first.
    ///
    /// The address is checked before anything else: where it is invalid the
    /// first request is already the failure, and no encoder is ever probed.
    pub fn begin(mode: VideoMode, address: &str, protocol: Protocol) -> (r: (
        PipelineBuilder,
        BuildRequest,
    ))
        ensures
            r.0@ == (BuilderView {
                mode: mode@,
                protocol,
                endpoint: endpoint_of(address@),
                phase: BuildPhase::initial(address@),
            }),
            r.0@.well_formed(),
            r.1 == BuildPhase::initial(address@).request(),
    {
        proof {
            use_type_invariant(&mode);
        }
        let endpoint = parse_address(address);
        let phase = match endpoint {
            Some(_) => BuildPhase::Probing(EncoderChoice::first()),
            None => BuildPhase::Failed(BuildError::InvalidAddress),
        };
        let builder = PipelineBuilder { mode, protocol, endpoint, phase };
        let request = builder.pending();
        (builder, request)
    }

    /// The request that is outstanding.
    pub fn pending(&self) -> (r: BuildRequest)
        ensures
            r == self@.phase.request(),
    {
        match self.phase {
            BuildPhase::Probing(e) => BuildRequest::Probe(e),
            BuildPhase::Assembling(e) => BuildRequest::Assemble(e),
            BuildPhase::Ready(_) => BuildRequest::Ready,
            BuildPhase::Failed(err) => BuildRequest::Failed(err),
        }
    }

    /// Where the build stands.
    pub fn phase(&self) -> (r: BuildPhase)
        ensures
            r == self@.phase,
            self@.well_formed(),
    {
        proof {
            use_type_invariant(self);
        }
        self.phase
    }

    /// Takes the answer to the outstanding request and says what to do next.
    ///
    /// Returns `None`, and changes nothing, exactly when `event` does not
    /// answer the outstanding request; a finished build accepts no event.
    pub fn step(&mut self, event: BuildEvent) -> (r: Option<BuildRequest>)
        ensures
            final(self)@.well_formed(),
            final(self)@.mode == old(self)@.mode,
            final(self)@.protocol == old(self)@.protocol,
            final(self)@.endpoint == old(self)@.endpoint,
            match old(self)@.phase.after(event) {
                Some(next) => final(self)@.phase == next && r == Some(next.request()),
                None => final(self)@.phase == old(self)@.phase && r is None,
            },
    {
        proof {
            use_type_invariant(&*self);
        }
        let next = match (self.phase, event) {
            (BuildPhase::Probing(e), BuildEvent::Probed { available }) => {
                if available {
                    BuildPhase::Assembling(e)
                } else {
                    match e.next() {
                        Some(n) => BuildPhase::Probing(n),
                        None => BuildPhase::Failed(BuildError::NoEncoderAvailable),
                    }
                }
            },
            (BuildPhase::Assembling(e), BuildEvent::Started) => BuildPhase::Ready(e),
            (BuildPhase::Assembling(_), BuildEvent::StartFailed(step)) => BuildPhase::Failed(
                BuildError::PipelineStart(step),
            ),
            _ => {
                return None;
            },
        };
        self.phase = next;
        Some(self.pending())
    }

    /// The plan of the pipeline: available from the moment an encoder is
    /// chosen, and only while the build has not failed.
    pub fn plan(&self) -> (r: Option<PipelinePlan>)
        ensures
            r is Some <==> self@.plan_of() is Some,
            r matches Some(p) ==> Some(p@) == self@.plan_of(),
    {
        proof {
            use_type_invariant(self);
        }
        let encoder = match self.phase {
            BuildPhase::Assembling(e) => e,
            BuildPhase::Ready(e) => e,
            _ => {
                return None;
            },
        };
        match &self.endpoint {
            Some(endpoint) => Some(
                PipelinePlan {
                    mode: self.mode,
                    encoder,
                    protocol: self.protocol,
                    endpoint: Endpoint { host: endpoint.host.clone(), port: endpoint.port },
                },
            ),
            None => None,
        }
    }
}

/// The plan that a build arrives at on a host with the encoders of `support`.
pub open spec fn planned(
    mode: ModeView,
    address: Seq<char>,
    protocol: Protocol,
    support: EncoderSupport,
) -> Result<PlanView, BuildError> {
    match (endpoint_of(address), support.preferred()) {
        (None, _) => Err(BuildError::InvalidAddress),
        (Some(_), None) => Err(BuildError::NoEncoderAvailable),
        (Some(endpoint), Some(encoder)) => Ok(PlanView { mode, encoder, protocol, endpoint }),
    }
}

/// How many requests a build can still make before it is over or assembles.
pub open spec fn probes_left(phase: BuildPhase) -> int {
    match phase {
        BuildPhase::Probing(e) => 5 - e.rank(),
        _ => 0,
    }
}

/// Plans the pipeline for a host whose encoders are known.
///
/// Runs a build to the point where the pipeline would be assembled, with
/// every probe answered from `support`. The address is judged first, then
/// the encoders: the plan names the most preferred encoder that the host
/// has.
pub fn plan_pipeline(
    mode: VideoMode,
    address: &str,
    protocol: Protocol,
    support: &EncoderSupport,
) -> (r: Result<PipelinePlan, BuildError>)
    ensures
        planned(mode@, address@, protocol, *support) == match r {
            Ok(plan) => Ok(plan@),
            Err(e) => Err(e),
        },
{
    let (mut builder, mut request) = PipelineBuilder::begin(mode, address, protocol);
    loop
        invariant
            builder@.well_formed(),
            builder@.mode == mode@,
            builder@.protocol == protocol,
            builder@.endpoint == endpoint_of(address@),
            request == builder@.phase.request(),
            !(builder@.phase is Ready),
            builder@.phase matches BuildPhase::Failed(e) ==> Err::<PlanView, BuildError>(e)
                == planned(mode@, address@, protocol, *support),
            builder@.phase matches BuildPhase::Assembling(e) ==> support.preferred() == Some(e),
            builder@.phase matches BuildPhase::Probing(e) ==> forall|o: EncoderChoice|
                o.rank() < e.rank() ==> !support.has(o),
        decreases probes_left(builder@.phase),
    {
        match request {
            BuildRequest::Probe(encoder) => {
                let available = support.supports(encoder);
                proof {
                    if available {
                        assert(!support.has(EncoderChoice::Vaapi) || encoder
                            == EncoderChoice::Vaapi) by {
                            if encoder != EncoderChoice::Vaapi {
                                assert(EncoderChoice::Vaapi.rank() < encoder.rank());
                            }
                        }
                        assert(!support.has(EncoderChoice::Nvenc) || encoder.rank() <= 1) by {
                            if encoder.rank() > 1 {
                                assert(EncoderChoice::Nvenc.rank() < encoder.rank());
                            }
                        }
                        assert(!support.has(EncoderChoice::X264) || encoder.rank() <= 2) by {
                            if encoder.rank() > 2 {
                                assert(EncoderChoice::X264.rank() < encoder.rank());
                            }
                        }
                        assert(support.preferred() == Some(encoder));
                    } else if encoder.successor() is None {
                        assert forall|o: EncoderChoice| !support.has(o) by {
                            if o.rank() == encoder.rank() {
                                assert(o == encoder);
                            }
                        }
                        assert(!support.has(EncoderChoice::Vaapi));
                        assert(!support.has(EncoderChoice::Nvenc));
                        assert(!support.has(EncoderChoice::X264));
                        assert(!support.has(EncoderChoice::Libav));
                        assert(support.preferred() is None);
                    } else {
                        let next = encoder.successor()->0;
                        assert forall|o: EncoderChoice| o.rank() < next.rank() implies !support.has(
                            o,
                        ) by {
                            if o.rank() == encoder.rank() {
                                assert(o == encoder);
                            }
                        }
                    }
                }
                match builder.step(BuildEvent::Probed { available }) {
                    Some(next) => {
                        request = next;
                    },
                    None => unreached(),
                }
            },
            BuildRequest::Assemble(_) => {
                match builder.plan() {
                    Some(plan) => {
                        return Ok(plan);
                    },
                    None => unreached(),
                }
            },
            BuildRequest::Ready => unreached(),
            BuildRequest::Failed(error) => {
                return Err(error);
            },
        }
    }
}

impl BuildPhase {
    /// The phase reached from this one when every probe is answered from
    /// `support`, after at most `probes` probes.
    pub open spec fn settled(self, support: EncoderSupport, probes: nat) -> BuildPhase
        decreases probes,
    {
        if probes == 0 {
            self
        } else {
            match self {
                BuildPhase::Probing(e) => match self.after(
                    BuildEvent::Probed { available: support.has(e) },
                ) {
                    Some(next) => next.settled(support, (probes - 1) as nat),
                    None => self,
                },
                _ => self,
            }
        }
    }
}

/// No event is a probe that found its encoder.
pub open spec fn no_encoder_found(events: Seq<BuildEvent>) -> bool {
    forall|i: int| 0 <= i < events.len() ==> events[i] != (BuildEvent::Probed { available: true })
}

/// A finished build stays as it is: it accepts no event and makes no further
/// request, whatever it is told.
pub proof fn finished_build_is_final(phase: BuildPhase, events: Seq<BuildEvent>)
    requires
        phase.finished(),
    ensures
        phase.after_all(events) == phase,
        phase.requests(events) == Seq::<BuildRequest>::empty(),
    decreases events.len(),
{
    if events.len() > 0 {
        finished_build_is_final(phase, events.drop_last());
    }
}

/// An invalid address fails the build before any encoder is looked for: the
/// build begins in the failure, and no event draws a probe, or any other
/// request, from it.
pub proof fn invalid_address_probes_nothing(address: Seq<char>, events: Seq<BuildEvent>)
    requires
        endpoint_of(address) is None,
    ensures
        BuildPhase::initial(address) == BuildPhase::Failed(BuildError::InvalidAddress),
        BuildPhase::initial(address).request() == BuildRequest::Failed(
            BuildError::InvalidAddress,
        ),
        BuildPhase::initial(address).after_all(events) == BuildPhase::initial(address),
        BuildPhase::initial(address).requests(events) == Seq::<BuildRequest>::empty(),
{
    finished_build_is_final(BuildPhase::initial(address), events);
}

/// Without an encoder no pipeline is started: as long as no probe finds its
/// encoder, a build that is still probing never asks for the pipeline to be
/// assembled, and never gets ready.
pub proof fn no_encoder_no_start(encoder: EncoderChoice, events: Seq<BuildEvent>)
    requires
        no_encoder_found(events),
    ensures
        !(BuildPhase::Probing(encoder).after_all(events) is Assembling),
        !(BuildPhase::Probing(encoder).after_all(events) is Ready),
        forall|j: int|
            0 <= j < BuildPhase::Probing(encoder).requests(events).len() ==> {
                &&& !(#[trigger] BuildPhase::Probing(encoder).requests(events)[j] is Assemble)
                &&& BuildPhase::Probing(encoder).requests(events)[j] != BuildRequest::Ready
            },
    decreases events.len(),
{
    if events.len() > 0 {
        let front = events.drop_last();
        assert(no_encoder_found(front)) by {
            assert forall|i: int| 0 <= i < front.len() implies front[i] != (BuildEvent::Probed {
                available: true,
            }) by {
                assert(front[i] == events[i]);
            }
        }
        no_encoder_no_start(encoder, front);
        assert(events.last() == events[events.len() - 1]);
    }
}

/// With every probe answered "not available" the build walks the whole
/// preference list and then fails for want of an encoder.
pub proof fn all_probes_fail()
    ensures
        BuildPhase::Probing(EncoderChoice::Vaapi).requests(
            Seq::new(4, |i: int| BuildEvent::Probed { available: false }),
        ) == seq![
            BuildRequest::Probe(EncoderChoice::Nvenc),
            BuildRequest::Probe(EncoderChoice::X264),
            BuildRequest::Probe(EncoderChoice::Libav),
            BuildRequest::Failed(BuildError::NoEncoderAvailable),
        ],
        BuildPhase::Probing(EncoderChoice::Vaapi).after_all(
            Seq::new(4, |i: int| BuildEvent::Probed { available: false }),
        ) == BuildPhase::Failed(BuildError::NoEncoderAvailable),
{
    let no = BuildEvent::Probed { available: false };
    let start = BuildPhase::Probing(EncoderChoice::Vaapi);
    let e4 = Seq::new(4, |i: int| no);
    let e3 = e4.drop_last();
    let e2 = e3.drop_last();
    let e1 = e2.drop_last();
    let e0 = e1.drop_last();
    assert(e0.len() == 0);
    assert(start.after_all(e0) == start);
    assert(start.requests(e0) =~= seq![]);
    assert(e1.last() == no);
    assert(start.after_all(e1) == BuildPhase::Probing(EncoderChoice::Nvenc));
    assert(start.requests(e1) =~= seq![BuildRequest::Probe(EncoderChoice::Nvenc)]);
    assert(e2.last() == no);
    assert(start.after_all(e2) == BuildPhase::Probing(EncoderChoice::X264));
    assert(start.requests(e2) =~= seq![
        BuildRequest::Probe(EncoderChoice::Nvenc),
        BuildRequest::Probe(EncoderChoice::X264),
    ]);
    assert(e3.last() == no);
    assert(start.after_all(e3) == BuildPhase::Probing(EncoderChoice::Libav));
    assert(start.requests(e3) =~= seq![
        BuildRequest::Probe(EncoderChoice::Nvenc),
        BuildRequest::Probe(EncoderChoice::X264),
        BuildRequest::Probe(EncoderChoice::Libav),
    ]);
    assert(e4.last() == no);
    assert(start.after_all(e4) == BuildPhase::Failed(BuildError::NoEncoderAvailable));
    assert(start.requests(e4) =~= seq![
        BuildRequest::Probe(EncoderChoice::Nvenc),
        BuildRequest::Probe(EncoderChoice::X264),
        BuildRequest::Probe(EncoderChoice::Libav),
        BuildRequest::Failed(BuildError::NoEncoderAvailable),
    ]);
}

/// First available wins: probing a host settles on the most preferred encoder
/// that the host has, and on the failure where it has none.
pub proof fn probing_settles_on_preferred(support: EncoderSupport)
    ensures
        BuildPhase::Probing(EncoderChoice::Vaapi).settled(support, 4) == match support.preferred() {
            Some(e) => BuildPhase::Assembling(e),
            None => BuildPhase::Failed(BuildError::NoEncoderAvailable),
        },
{
    reveal_with_fuel(BuildPhase::settled, 5);
}

} // verus!
