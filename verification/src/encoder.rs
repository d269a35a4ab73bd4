//! The H.264 encoders a streaming pipeline can use, in order of preference.

use vstd::prelude::*;

verus! {

/// An H.264 encoder element.
#[derive(Clone, Copy, Debug, PartialEq, Eq, Structural)]
pub enum EncoderChoice {
    /// Hardware encoder over VA-API.
    Vaapi,
    /// Hardware encoder on NVIDIA GPUs.
    Nvenc,
    /// Software encoder, tuned for zero latency.
    X264,
    /// Software encoder of last resort.
    Libav,
}

/// Which encoders a host can instantiate.
#[derive(Clone, Copy, Debug, PartialEq, Eq, Structural)]
pub struct EncoderSupport {
    pub vaapi: bool,
    pub nvenc: bool,
    pub x264: bool,
    pub libav: bool,
}

/// Number of encoders in the preference list.
pub const ENCODER_COUNT: usize = 4;

impl EncoderChoice {
    /// Place in the preference list; the most preferred encoder has rank 0.
    pub open spec fn rank(self) -> int {
        match self {
            EncoderChoice::Vaapi => 0,
            EncoderChoice::Nvenc => 1,
            EncoderChoice::X264 => 2,
            EncoderChoice::Libav => 3,
        }
    }

    /// The encoder tried after this one, if any.
    pub open spec fn successor(self) -> Option<EncoderChoice> {
        match self {
            EncoderChoice::Vaapi => Some(EncoderChoice::Nvenc),
            EncoderChoice::Nvenc => Some(EncoderChoice::X264),
            EncoderChoice::X264 => Some(EncoderChoice::Libav),
            EncoderChoice::Libav => None,
        }
    }

    /// The name of the element factory that makes this encoder.
    pub open spec fn factory_of(self) -> Seq<char> {
        match self {
            EncoderChoice::Vaapi => "vaapih264enc"@,
            EncoderChoice::Nvenc => "nvh264enc"@,
            EncoderChoice::X264 => "x264enc"@,
            EncoderChoice::Libav => "avenc_h264"@,
        }
    }

    /// The preference list, most preferred first.
    pub open spec fn preference() -> Seq<EncoderChoice> {
        seq![EncoderChoice::Vaapi, EncoderChoice::Nvenc, EncoderChoice::X264, EncoderChoice::Libav]
    }

    /// The most preferred encoder.
    pub fn first() -> (r: EncoderChoice)
        ensures
            r == EncoderChoice::Vaapi,
            r.rank() == 0,
    {
        EncoderChoice::Vaapi
    }

    /// The encoder to try when this one is not available.
    pub fn next(self) -> (r: Option<EncoderChoice>)
        ensures
            r == self.successor(),
            r matches Some(n) ==> n.rank() == self.rank() + 1,
            r is None <==> self.rank() == ENCODER_COUNT - 1,
    {
        match self {
            EncoderChoice::Vaapi => Some(EncoderChoice::Nvenc),
            EncoderChoice::Nvenc => Some(EncoderChoice::X264),
            EncoderChoice::X264 => Some(EncoderChoice::Libav),
            EncoderChoice::Libav => None,
        }
    }

    /// The name of the element factory that makes this encoder.
    pub fn factory_name(self) -> (r: &'static str)
        ensures
            r@ == self.factory_of(),
    {
        match self {
            EncoderChoice::Vaapi => "vaapih264enc",
            EncoderChoice::Nvenc => "nvh264enc",
            EncoderChoice::X264 => "x264enc",
            EncoderChoice::Libav => "avenc_h264",
        }
    }

    /// Every encoder, most preferred first.
    pub fn candidates() -> (r: Vec<EncoderChoice>)
        ensures
            r@ == EncoderChoice::preference(),
    {
        let mut v: Vec<EncoderChoice> = Vec::new();
        v.push(EncoderChoice::Vaapi);
        v.push(EncoderChoice::Nvenc);
        v.push(EncoderChoice::X264);
        v.push(EncoderChoice::Libav);
        assert(v@ =~= EncoderChoice::preference());
        v
    }
}

impl EncoderSupport {
    /// Whether the host can instantiate `encoder`.
    pub open spec fn has(self, encoder: EncoderChoice) -> bool {
        match encoder {
            EncoderChoice::Vaapi => self.vaapi,
            EncoderChoice::Nvenc => self.nvenc,
            EncoderChoice::X264 => self.x264,
            EncoderChoice::Libav => self.libav,
        }
    }

    /// The encoder to use: the most preferred one that the host has.
    pub open spec fn preferred(self) -> Option<EncoderChoice> {
        if self.vaapi {
            Some(EncoderChoice::Vaapi)
        } else if self.nvenc {
            Some(EncoderChoice::Nvenc)
        } else if self.x264 {
            Some(EncoderChoice::X264)
        } else if self.libav {
            Some(EncoderChoice::Libav)
        } else {
            None
        }
    }

    /// Exec form of [`EncoderSupport::has`].
    pub fn supports(&self, encoder: EncoderChoice) -> (r: bool)
        ensures
            r == self.has(encoder),
    {
        match encoder {
            EncoderChoice::Vaapi => self.vaapi,
            EncoderChoice::Nvenc => self.nvenc,
            EncoderChoice::X264 => self.x264,
            EncoderChoice::Libav => self.libav,
        }
    }

    /// Picks the encoder to use, walking the preference list from the top.
    ///
    /// The result is available, nothing before it on the list is, and it is
    /// `None` exactly when the host has no encoder at all.
    pub fn select(&self) -> (r: Option<EncoderChoice>)
        ensures
            r == self.preferred(),
            r matches Some(e) ==> self.has(e) && forall|o: EncoderChoice|
                o.rank() < e.rank() ==> !self.has(o),
            r is None <==> forall|o: EncoderChoice| !self.has(o),
    {
        let mut candidate = EncoderChoice::first();
        loop
            invariant
                forall|o: EncoderChoice| o.rank() < candidate.rank() ==> !self.has(o),
                self.preferred() matches Some(e) ==> e.rank() >= candidate.rank(),
            decreases ENCODER_COUNT - candidate.rank(),
        {
            if self.supports(candidate) {
                return Some(candidate);
            }
            match candidate.next() {
                Some(n) => {
                    candidate = n;
                },
                None => {
                    assert forall|o: EncoderChoice| !self.has(o) by {
                        if o.rank() == candidate.rank() {
                            assert(o == candidate);
                        }
                    }
                    return None;
                },
            }
        }
    }
}

} // verus!
