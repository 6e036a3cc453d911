//! The presentable surface: its size configuration, the rule that a zero
//! size never reaches the backend, the choice among the formats and modes the
//! backend offers, and what to do when acquiring a frame fails.
use vstd::prelude::*;

verus! {

/// Frames the backend may queue ahead of the one being shown.
pub const MAX_FRAME_LATENCY: u32 = 2;

/// The size part of a surface configuration, with the frame latency.
#[derive(Debug, Clone, Copy, PartialEq, Eq, Structural)]
pub struct SurfaceConfig {
    pub width: u32,
    pub height: u32,
    pub max_frame_latency: u32,
}

/// What a surface manager holds: the configuration it last stored and
/// whether the surface has been configured at all.
#[derive(Debug, Clone, Copy, PartialEq, Eq, Structural)]
pub struct SurfaceView {
    pub config: SurfaceConfig,
    pub configured: bool,
}

impl SurfaceView {
    /// A configured surface has a nonzero size, and the latency is fixed.
    pub open spec fn wf(self) -> bool {
        &&& self.configured ==> self.config.width > 0 && self.config.height > 0
        &&& self.config.max_frame_latency == MAX_FRAME_LATENCY
    }

    /// The surface after a configure request at `width` x `height`: nothing
    /// changes when either is zero.
    pub open spec fn configured_at(self, width: u32, height: u32) -> SurfaceView {
        if width == 0 || height == 0 {
            self
        } else {
            SurfaceView {
                config: SurfaceConfig {
                    width,
                    height,
                    max_frame_latency: self.config.max_frame_latency,
                },
                configured: true,
            }
        }
    }
}

/// Owns the surface's configuration; the backend is configured only with
/// what this hands out.
pub struct SurfaceManager {
    config: SurfaceConfig,
    configured: bool,
}

impl View for SurfaceManager {
    type V = SurfaceView;

    closed spec fn view(&self) -> SurfaceView {
        SurfaceView { config: self.config, configured: self.configured }
    }
}

impl SurfaceManager {
    /// A surface for a window of `width` x `height`, not yet configured.
    pub fn new(width: u32, height: u32) -> (r: SurfaceManager)
        ensures
            r@.wf(),
            r@ == (SurfaceView {
                config: SurfaceConfig { width, height, max_frame_latency: MAX_FRAME_LATENCY },
                configured: false,
            }),
    {
        SurfaceManager {
            config: SurfaceConfig { width, height, max_frame_latency: MAX_FRAME_LATENCY },
            configured: false,
        }
    }

    /// Stores `width` x `height` and returns the configuration the backend
    /// must apply; returns `None` and changes nothing when either is zero.
    pub fn configure(&mut self, width: u32, height: u32) -> (r: Option<SurfaceConfig>)
        requires
            old(self)@.wf(),
        ensures
            final(self)@ == old(self)@.configured_at(width, height),
            final(self)@.wf(),
            r == (if width == 0 || height == 0 {
                None
            } else {
                Some(final(self)@.config)
            }),
    {
        if width > 0 && height > 0 {
            self.config.width = width;
            self.config.height = height;
            self.configured = true;
            Some(self.config)
        } else {
            None
        }
    }

    pub fn is_configured(&self) -> (r: bool)
        ensures
            r == self@.configured,
    {
        self.configured
    }

    pub fn config(&self) -> (r: SurfaceConfig)
        ensures
            r == self@.config,
    {
        self.config
    }
}

/// A configure request at a zero width or height leaves the surface as it
/// was: unconfigured if it never was configured, and at its last valid size
/// if it was.
pub proof fn lemma_zero_size_keeps_surface(s: SurfaceView, width: u32, height: u32)
    requires
        width == 0 || height == 0,
    ensures
        s.configured_at(width, height) == s,
        s.configured_at(width, height).configured == s.configured,
{
}

/// Why acquiring the next frame failed, as the backend reports it.
#[derive(Debug, Clone, Copy, PartialEq, Eq, Structural)]
pub enum SurfaceError {
    /// No frame came in time.
    Timeout,
    /// The surface changed and must be configured again.
    Outdated,
    /// The surface was lost and must be configured again.
    Lost,
    /// No memory is left for a new frame.
    OutOfMemory,
    /// Any other failure of the backend.
    Other,
}

/// The class of an acquire failure, which decides the recovery.
#[derive(Debug, Clone, Copy, PartialEq, Eq, Structural)]
pub enum ErrorClass {
    /// The surface is lost or out of date: configure it again at the
    /// window's current size, and try again on the next frame.
    Stale,
    /// The frame is skipped and the loop goes on.
    Transient,
    /// Rendering cannot go on.
    Fatal,
}

impl SurfaceError {
    pub open spec fn class_spec(self) -> ErrorClass {
        match self {
            SurfaceError::Outdated | SurfaceError::Lost => ErrorClass::Stale,
            SurfaceError::Timeout => ErrorClass::Transient,
            SurfaceError::OutOfMemory | SurfaceError::Other => ErrorClass::Fatal,
        }
    }

    /// The class of this failure: lost and outdated surfaces are stale, a
    /// timeout is transient, and the rest is fatal.
    pub fn class(self) -> (r: ErrorClass)
        ensures
            r == self.class_spec(),
    {
        match self {
            SurfaceError::Outdated | SurfaceError::Lost => ErrorClass::Stale,
            SurfaceError::Timeout => ErrorClass::Transient,
            SurfaceError::OutOfMemory | SurfaceError::Other => ErrorClass::Fatal,
        }
    }
}

/// The format and modes chosen among those the backend offers, as positions
/// in its lists.
#[derive(Debug, Clone, Copy, PartialEq, Eq, Structural)]
pub struct SurfaceChoice {
    pub format: usize,
    pub present_mode: usize,
    pub alpha_mode: usize,
}

/// Whether `i` is the first position of `srgb` that holds `true`, or 0 where
/// none does.
pub open spec fn is_format_choice(srgb: Seq<bool>, i: int) -> bool {
    &&& 0 <= i < srgb.len()
    &&& forall|j: int| 0 <= j < i ==> !#[trigger] srgb[j]
    &&& (srgb[i] || (i == 0 && forall|j: int| 0 <= j < srgb.len() ==> !#[trigger] srgb[j]))
}

/// Picks the first sRGB format (`srgb` says which formats are), or the first
/// format where none is, together with the first present mode and the first
/// alpha mode. `None` when any of the three lists is empty.
pub fn choose_surface(srgb: &Vec<bool>, present_modes: usize, alpha_modes: usize) -> (r: Option<
    SurfaceChoice,
>)
    ensures
        r is None <==> srgb@.len() == 0 || present_modes == 0 || alpha_modes == 0,
        r matches Some(c) ==> {
            &&& is_format_choice(srgb@, c.format as int)
            &&& c.present_mode == 0
            &&& c.alpha_mode == 0
        },
{
    if srgb.len() == 0 || present_modes == 0 || alpha_modes == 0 {
        return None;
    }
    let mut i: usize = 0;
    while i < srgb.len()
        invariant
            i <= srgb@.len(),
            srgb@.len() > 0,
            present_modes > 0,
            alpha_modes > 0,
            forall|j: int| 0 <= j < i ==> !#[trigger] srgb@[j],
        decreases srgb@.len() - i,
    {
        if srgb[i] {
            return Some(SurfaceChoice { format: i, present_mode: 0, alpha_mode: 0 });
        }
        i = i + 1;
    }
    Some(SurfaceChoice { format: 0, present_mode: 0, alpha_mode: 0 })
}

} // verus!
