//! Choice of the output backend, and who hears of a shutdown.

use crate::text::same_text;
use vstd::prelude::*;

verus! {

/// The output an operator asks for by name.
#[derive(Clone, Copy, Debug, PartialEq, Eq, Structural)]
pub enum OutputRequest {
    /// No output.
    Off,
    /// Encoded video sent over the network.
    Stream,
    /// A stream server; reserved, and not offered yet.
    StreamServer,
    /// A remote-framebuffer server.
    Framebuffer,
}

/// The backend that frames are delivered to. A process has exactly one.
#[derive(Clone, Copy, Debug, PartialEq, Eq, Structural)]
pub enum BackendKind {
    /// Frames are fetched and released; nothing leaves the process.
    Disabled,
    /// Frames are pushed into a streaming pipeline.
    Streaming,
    /// Frames are converted and written to a remote-framebuffer server.
    Framebuffer,
}

/// The one output of a process, holding what it takes to push a frame and to
/// shut down cleanly: `S` for a streaming pipeline, `V` for a framebuffer
/// server. Being one value, it cannot hold two backends at once.
#[derive(Debug)]
pub enum OutputBackend<S, V> {
    Disabled,
    Streaming(S),
    Framebuffer(V),
}

/// The backend picked for a request, and whether the request could not be
/// honoured.
#[derive(Clone, Copy, Debug, PartialEq, Eq, Structural)]
pub struct BackendChoice {
    /// The backend to run.
    pub kind: BackendKind,
    /// The request named an output that is not offered yet; the caller owes
    /// the operator a warning.
    pub unimplemented: bool,
}

/// Who is told when the process is asked to stop.
#[derive(Clone, Copy, Debug, PartialEq, Eq, Structural)]
pub struct ShutdownFanout {
    /// The frame pump; always told.
    pub pump: bool,
    /// The backend's own stop channel; told when a backend is active.
    pub backend: bool,
}

impl OutputRequest {
    /// The request that `name` stands for. Any name but `appsrc`, `rtsp` and
    /// `vnc` asks for no output.
    pub open spec fn named(name: Seq<char>) -> OutputRequest {
        if name == "appsrc"@ {
            OutputRequest::Stream
        } else if name == "rtsp"@ {
            OutputRequest::StreamServer
        } else if name == "vnc"@ {
            OutputRequest::Framebuffer
        } else {
            OutputRequest::Off
        }
    }

    /// The backend that serves this request. The reserved stream server is
    /// served by no backend and flagged.
    pub open spec fn choice(self) -> BackendChoice {
        match self {
            OutputRequest::Off => BackendChoice {
                kind: BackendKind::Disabled,
                unimplemented: false,
            },
            OutputRequest::Stream => BackendChoice {
                kind: BackendKind::Streaming,
                unimplemented: false,
            },
            OutputRequest::StreamServer => BackendChoice {
                kind: BackendKind::Disabled,
                unimplemented: true,
            },
            OutputRequest::Framebuffer => BackendChoice {
                kind: BackendKind::Framebuffer,
                unimplemented: false,
            },
        }
    }

    /// Reads the name of an output. Names are case-sensitive.
    pub fn parse(name: &str) -> (r: OutputRequest)
        ensures
            r == OutputRequest::named(name@),
    {
        if same_text(name, "appsrc") {
            OutputRequest::Stream
        } else if same_text(name, "rtsp") {
            OutputRequest::StreamServer
        } else if same_text(name, "vnc") {
            OutputRequest::Framebuffer
        } else {
            OutputRequest::Off
        }
    }

    /// Picks the backend for this request.
    pub fn backend(self) -> (r: BackendChoice)
        ensures
            r == self.choice(),
    {
        match self {
            OutputRequest::Off => BackendChoice {
                kind: BackendKind::Disabled,
                unimplemented: false,
            },
            OutputRequest::Stream => BackendChoice {
                kind: BackendKind::Streaming,
                unimplemented: false,
            },
            OutputRequest::StreamServer => BackendChoice {
                kind: BackendKind::Disabled,
                unimplemented: true,
            },
            OutputRequest::Framebuffer => BackendChoice {
                kind: BackendKind::Framebuffer,
                unimplemented: false,
            },
        }
    }
}

impl<S, V> OutputBackend<S, V> {
    /// The kind of this backend.
    pub open spec fn kind_of(self) -> BackendKind {
        match self {
            OutputBackend::Disabled => BackendKind::Disabled,
            OutputBackend::Streaming(_) => BackendKind::Streaming,
            OutputBackend::Framebuffer(_) => BackendKind::Framebuffer,
        }
    }

    /// Exec form of [`OutputBackend::kind_of`].
    pub fn kind(&self) -> (r: BackendKind)
        ensures
            r == self.kind_of(),
    {
        match self {
            OutputBackend::Disabled => BackendKind::Disabled,
            OutputBackend::Streaming(_) => BackendKind::Streaming,
            OutputBackend::Framebuffer(_) => BackendKind::Framebuffer,
        }
    }
}

impl BackendKind {
    /// Whether frames leave the process through this backend.
    pub open spec fn delivers(self) -> bool {
        self != BackendKind::Disabled
    }

    /// Whether the backend is sent an end-of-stream when the pump stops.
    pub open spec fn ends_stream(self) -> bool {
        self == BackendKind::Streaming
    }

    /// Who hears of a shutdown with this backend active.
    pub open spec fn fanout_of(self) -> ShutdownFanout {
        ShutdownFanout { pump: true, backend: self.delivers() }
    }

    /// Exec form of [`BackendKind::delivers`].
    pub fn is_delivering(self) -> (r: bool)
        ensures
            r == self.delivers(),
    {
        match self {
            BackendKind::Disabled => false,
            _ => true,
        }
    }

    /// Exec form of [`BackendKind::ends_stream`].
    pub fn is_ending_stream(self) -> (r: bool)
        ensures
            r == self.ends_stream(),
    {
        match self {
            BackendKind::Streaming => true,
            _ => false,
        }
    }

    /// Who must be told of a shutdown: the pump in every case, and the
    /// backend's own stop channel where a backend is active.
    pub fn shutdown_fanout(self) -> (r: ShutdownFanout)
        ensures
            r == self.fanout_of(),
            r.pump,
    {
        ShutdownFanout { pump: true, backend: self.is_delivering() }
    }
}

/// The reserved stream server never starts a backend: asking for it gives the
/// disabled backend and the warning flag, and no other request is flagged.
pub proof fn reserved_output_is_disabled(request: OutputRequest)
    ensures
        request.choice().unimplemented <==> request == OutputRequest::StreamServer,
        request.choice().unimplemented ==> request.choice().kind == BackendKind::Disabled,
{
}

} // verus!
