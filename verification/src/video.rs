//! Video modes and the pixel layouts a frame source can deliver.

use crate::text::same_text;
use vstd::prelude::*;

verus! {

/// Channel order of one pixel in a frame.
///
/// The first four are the packed four-byte layouts that every output accepts;
/// `Other` stands for any layout outside that set.
#[derive(Clone, Copy, Debug, PartialEq, Eq, Structural)]
pub enum PixelFormat {
    Rgbx8888,
    Rgba8888,
    Bgrx8888,
    Bgra8888,
    Other,
}

/// A pixel layout chosen from a name, and whether the name was unknown.
#[derive(Clone, Copy, Debug, PartialEq, Eq, Structural)]
pub struct FormatChoice {
    /// The layout to use.
    pub format: PixelFormat,
    /// The name was not recognised and the default layout stands in for it;
    /// the caller owes the operator a warning.
    pub downgraded: bool,
}

impl PixelFormat {
    /// Whether this is one of the four packed four-byte layouts.
    pub open spec fn is_packed(self) -> bool {
        self != PixelFormat::Other
    }

    /// Whether the red channel comes first in each pixel.
    pub open spec fn red_first(self) -> bool {
        self == PixelFormat::Rgbx8888 || self == PixelFormat::Rgba8888
    }

    /// The name under which a layout is written on the command line and in
    /// stream capabilities. `Other` has none and yields the empty text.
    pub open spec fn name_of(self) -> Seq<char> {
        match self {
            PixelFormat::Rgbx8888 => "RGBx"@,
            PixelFormat::Rgba8888 => "RGBA"@,
            PixelFormat::Bgrx8888 => "BGRx"@,
            PixelFormat::Bgra8888 => "BGRA"@,
            PixelFormat::Other => ""@,
        }
    }

    /// The layout that `name` names, if it names one.
    pub open spec fn named(name: Seq<char>) -> Option<PixelFormat> {
        if name == "RGBx"@ {
            Some(PixelFormat::Rgbx8888)
        } else if name == "RGBA"@ {
            Some(PixelFormat::Rgba8888)
        } else if name == "BGRx"@ {
            Some(PixelFormat::Bgrx8888)
        } else if name == "BGRA"@ {
            Some(PixelFormat::Bgra8888)
        } else {
            None
        }
    }

    /// Exec form of [`PixelFormat::is_packed`].
    pub fn packed(self) -> (r: bool)
        ensures
            r == self.is_packed(),
    {
        match self {
            PixelFormat::Other => false,
            _ => true,
        }
    }

    /// The name of this layout.
    pub fn name(self) -> (r: &'static str)
        ensures
            r@ == self.name_of(),
    {
        match self {
            PixelFormat::Rgbx8888 => "RGBx",
            PixelFormat::Rgba8888 => "RGBA",
            PixelFormat::Bgrx8888 => "BGRx",
            PixelFormat::Bgra8888 => "BGRA",
            PixelFormat::Other => "",
        }
    }

    /// Reads a layout name. Names are case-sensitive.
    pub fn parse(name: &str) -> (r: Option<PixelFormat>)
        ensures
            r == PixelFormat::named(name@),
    {
        if same_text(name, "RGBx") {
            Some(PixelFormat::Rgbx8888)
        } else if same_text(name, "RGBA") {
            Some(PixelFormat::Rgba8888)
        } else if same_text(name, "BGRx") {
            Some(PixelFormat::Bgrx8888)
        } else if same_text(name, "BGRA") {
            Some(PixelFormat::Bgra8888)
        } else {
            None
        }
    }

    /// Reads a layout name, falling back to `Rgbx8888` for an unknown one.
    pub fn parse_or_default(name: &str) -> (r: FormatChoice)
        ensures
            PixelFormat::named(name@) matches Some(f) ==> r == (FormatChoice {
                format: f,
                downgraded: false,
            }),
            PixelFormat::named(name@) is None ==> r == (FormatChoice {
                format: PixelFormat::Rgbx8888,
                downgraded: true,
            }),
            r.format.is_packed(),
    {
        match PixelFormat::parse(name) {
            Some(format) => FormatChoice { format, downgraded: false },
            None => FormatChoice { format: PixelFormat::Rgbx8888, downgraded: true },
        }
    }
}

/// What a video mode holds, as plain values.
pub struct ModeView {
    pub format: PixelFormat,
    pub width: u32,
    pub height: u32,
    pub rate: u32,
}

impl ModeView {
    /// A mode is valid when its layout is packed and no dimension is zero.
    pub open spec fn valid(self) -> bool {
        &&& self.format.is_packed()
        &&& self.width > 0
        &&& self.height > 0
        &&& self.rate > 0
    }

    /// Number of pixels in one frame.
    pub open spec fn pixels(self) -> int {
        self.width * self.height
    }
}

/// Pixel layout, frame size and frame rate of the frame source.
///
/// Every value of this type is valid: it can only be made by
/// [`VideoMode::new`], and nothing changes it afterwards.
#[derive(Clone, Copy, Debug)]
pub struct VideoMode {
    format: PixelFormat,
    width: u32,
    height: u32,
    rate: u32,
}

impl View for VideoMode {
    type V = ModeView;

    closed spec fn view(&self) -> ModeView {
        ModeView { format: self.format, width: self.width, height: self.height, rate: self.rate }
    }
}

impl VideoMode {
    #[verifier::type_invariant]
    pub open spec fn well_formed(self) -> bool {
        self@.valid()
    }

    /// Makes a mode, or returns `None` where the layout is not packed or a
    /// dimension or the rate is zero.
    pub fn new(format: PixelFormat, width: u32, height: u32, rate: u32) -> (r: Option<VideoMode>)
        ensures
            r is Some <==> (ModeView { format, width, height, rate }).valid(),
            r matches Some(m) ==> m@ == (ModeView { format, width, height, rate }),
    {
        if format.packed() && width > 0 && height > 0 && rate > 0 {
            Some(VideoMode { format, width, height, rate })
        } else {
            None
        }
    }

    /// The pixel layout.
    pub fn format(&self) -> (r: PixelFormat)
        ensures
            r == self@.format,
            self@.valid(),
    {
        proof {
            use_type_invariant(self);
        }
        self.format
    }

    /// Frame width in pixels.
    pub fn width(&self) -> (r: u32)
        ensures
            r == self@.width,
            self@.valid(),
    {
        proof {
            use_type_invariant(self);
        }
        self.width
    }

    /// Frame height in pixels.
    pub fn height(&self) -> (r: u32)
        ensures
            r == self@.height,
            self@.valid(),
    {
        proof {
            use_type_invariant(self);
        }
        self.height
    }

    /// Frames per second.
    pub fn rate(&self) -> (r: u32)
        ensures
            r == self@.rate,
            self@.valid(),
    {
        proof {
            use_type_invariant(self);
        }
        self.rate
    }
}

} // verus!
