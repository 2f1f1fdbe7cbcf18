//! Surface configuration: capability negotiation, configure and resize.
//!
//! The host owns the real surface object; this module owns the
//! configuration record and the rules for it. A format is modeled by an
//! identifier the host understands plus its sRGB flag, which is the one
//! property the negotiation reads; present and alpha modes are opaque
//! identifiers, of which the first supported one is taken.

use vstd::prelude::*;

verus! {

/// A texture format: a host-side identifier and whether the format is
/// sRGB-encoded.
#[derive(Clone, Copy, Debug, PartialEq, Eq, Structural)]
pub struct SurfaceFormat {
    pub code: u32,
    pub srgb: bool,
}

/// What the host reports the surface supports, in the host's preference
/// order.
pub struct SurfaceCaps {
    pub formats: Vec<SurfaceFormat>,
    pub present_modes: Vec<u32>,
    pub alpha_modes: Vec<u32>,
}

impl SurfaceCaps {
    /// A capability report is usable when none of its lists is empty.
    pub open spec fn wf(&self) -> bool {
        self.formats@.len() > 0 && self.present_modes@.len() > 0 && self.alpha_modes@.len() > 0
    }
}

/// The first sRGB format of the list, if any.
pub open spec fn first_srgb(formats: Seq<SurfaceFormat>) -> Option<SurfaceFormat>
    decreases formats.len(),
{
    if formats.len() == 0 {
        None
    } else if formats[0].srgb {
        Some(formats[0])
    } else {
        first_srgb(formats.subrange(1, formats.len() as int))
    }
}

/// The negotiated format: the first sRGB entry, or failing that the first
/// entry of the list.
pub open spec fn chosen_format(formats: Seq<SurfaceFormat>) -> SurfaceFormat
    recommends
        formats.len() > 0,
{
    match first_srgb(formats) {
        Some(f) => f,
        None => formats[0],
    }
}

/// Select the surface format from the capability list: the first entry
/// flagged sRGB, or the first entry if none is.
pub fn choose_format(formats: &Vec<SurfaceFormat>) -> (r: SurfaceFormat)
    requires
        formats@.len() > 0,
    ensures
        r == chosen_format(formats@),
{
    let n = formats.len();
    proof {
        assert(formats@.subrange(0, n as int) =~= formats@);
    }
    let mut i: usize = 0;
    while i < n
        invariant
            n == formats@.len(),
            0 < n,
            i <= n,
            first_srgb(formats@) == first_srgb(formats@.subrange(i as int, n as int)),
        decreases n - i,
    {
        let f = formats[i];
        proof {
            assert(formats@.subrange(i as int, n as int).subrange(
                1,
                formats@.subrange(i as int, n as int).len() as int,
            ) =~= formats@.subrange(i + 1, n as int));
        }
        if f.srgb {
            return f;
        }
        i = i + 1;
    }
    proof {
        assert(formats@.subrange(n as int, n as int) =~= Seq::<SurfaceFormat>::empty());
    }
    formats[0]
}

/// Select the present mode: the first entry of the capability list,
/// deterministically order-dependent on what the host reports.
pub fn choose_present_mode(modes: &Vec<u32>) -> (r: u32)
    requires
        modes@.len() > 0,
    ensures
        r == modes@[0],
{
    modes[0]
}

/// Select the alpha mode: the first entry of the capability list.
pub fn choose_alpha_mode(modes: &Vec<u32>) -> (r: u32)
    requires
        modes@.len() > 0,
    ensures
        r == modes@[0],
{
    modes[0]
}

/// The engine's surface configuration. `configured` is true only after a
/// successful configure call, and gates whether a render tick must
/// reconfigure first.
#[derive(Clone, Copy, Debug, PartialEq, Eq, Structural)]
pub struct SurfaceConfig {
    pub width: u32,
    pub height: u32,
    pub format: SurfaceFormat,
    pub present_mode: u32,
    pub alpha_mode: u32,
    pub configured: bool,
}

/// What a configure request with the given size does to a configuration:
/// nothing when either dimension is zero, otherwise it updates the
/// dimensions and records the surface as configured.
pub open spec fn configured_after(c: SurfaceConfig, width: u32, height: u32) -> SurfaceConfig {
    if width == 0 || height == 0 {
        c
    } else {
        SurfaceConfig { width, height, configured: true, ..c }
    }
}

impl SurfaceConfig {
    /// Build the configuration from the host's capability report and the
    /// initial surface size. The surface itself has not been configured
    /// yet.
    pub fn negotiate(caps: &SurfaceCaps, width: u32, height: u32) -> (c: SurfaceConfig)
        requires
            caps.wf(),
        ensures
            c == (SurfaceConfig {
                width,
                height,
                format: chosen_format(caps.formats@),
                present_mode: caps.present_modes@[0],
                alpha_mode: caps.alpha_modes@[0],
                configured: false,
            }),
    {
        let format = choose_format(&caps.formats);
        SurfaceConfig {
            width,
            height,
            format,
            present_mode: choose_present_mode(&caps.present_modes),
            alpha_mode: choose_alpha_mode(&caps.alpha_modes),
            configured: false,
        }
    }

    /// Apply a configure request. Returns whether the host must now
    /// (re)configure the real surface with this configuration: false
    /// exactly when a zero dimension suppressed the request, leaving the
    /// configuration unchanged. Idempotent.
    pub fn configure(&mut self, width: u32, height: u32) -> (reconfigure: bool)
        ensures
            *final(self) == configured_after(*old(self), width, height),
            reconfigure <==> (width > 0 && height > 0),
    {
        if width > 0 && height > 0 {
            self.width = width;
            self.height = height;
            self.configured = true;
            true
        } else {
            false
        }
    }

    /// A resize request: the same contract as `configure`, reached from
    /// the host's resize event.
    pub fn resize(&mut self, width: u32, height: u32) -> (reconfigure: bool)
        ensures
            *final(self) == configured_after(*old(self), width, height),
            reconfigure <==> (width > 0 && height > 0),
    {
        self.configure(width, height)
    }
}

/// Configuring is idempotent: applying the same request twice leaves the
/// same configuration as applying it once.
pub proof fn lemma_configure_idempotent(c: SurfaceConfig, width: u32, height: u32)
    ensures
        configured_after(configured_after(c, width, height), width, height) == configured_after(
            c,
            width,
            height,
        ),
{
}

/// A request with a zero dimension changes nothing: neither the
/// dimensions nor the configured flag.
pub proof fn lemma_zero_size_suppressed(c: SurfaceConfig, width: u32, height: u32)
    requires
        width == 0 || height == 0,
    ensures
        configured_after(c, width, height) == c,
{
}

} // verus!
