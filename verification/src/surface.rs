use vstd::prelude::*;

use crate::error::Error;
use crate::window::WindowCtx;

verus! {

/// Colour format of a presentation surface, as the adapter reports it:
/// an identifying code plus whether the format is sRGB-encoded.
#[derive(Clone, Copy, Debug, PartialEq, Eq, Structural)]
pub struct TextureFormat {
    pub code: u32,
    pub srgb: bool,
}

/// Presentation mode of a surface, by its identifying code.
#[derive(Clone, Copy, Debug, PartialEq, Eq, Structural)]
pub struct PresentMode {
    pub code: u32,
}

/// Alpha compositing mode of a surface, by its identifying code.
#[derive(Clone, Copy, Debug, PartialEq, Eq, Structural)]
pub struct AlphaMode {
    pub code: u32,
}

/// Capability set of a presentation surface on a given adapter: the
/// supported formats, present modes and alpha modes, in the adapter's
/// preference order.
#[derive(Debug)]
pub struct SurfaceCapabilities {
    pub formats: Vec<TextureFormat>,
    pub present_modes: Vec<PresentMode>,
    pub alpha_modes: Vec<AlphaMode>,
}

/// Number of in-flight frames the surface is asked for.
pub const MAX_FRAME_LATENCY: u32 = 2;

/// The negotiated format/size/present-mode contract between the
/// presentation surface and the device. Present only while the surface
/// is configured.
#[derive(Clone, Copy, Debug, PartialEq, Eq, Structural)]
pub struct SurfaceConfiguration {
    pub format: TextureFormat,
    pub width: u32,
    pub height: u32,
    pub present_mode: PresentMode,
    pub alpha_mode: AlphaMode,
    pub desired_maximum_frame_latency: u32,
}

/// A size with either dimension zero cannot be presented to.
pub open spec fn degenerate(width: u32, height: u32) -> bool {
    width == 0 || height == 0
}

/// Whether the capability list offers at least one sRGB format.
pub open spec fn has_srgb(formats: Seq<TextureFormat>) -> bool {
    exists|i: int| 0 <= i < formats.len() && formats[i].srgb
}

/// The format-selection policy: the first sRGB-capable entry of the
/// capability list, falling back to the list's first entry when none is
/// sRGB. `f` is the chosen format.
pub open spec fn is_preferred_format(formats: Seq<TextureFormat>, f: TextureFormat) -> bool {
    if has_srgb(formats) {
        exists|i: int|
            0 <= i < formats.len() && f == formats[i] && formats[i].srgb && (forall|j: int|
                0 <= j < i ==> !formats[j].srgb)
    } else if formats.len() > 0 {
        f == formats[0]
    } else {
        false
    }
}

/// The selection policy names exactly one format: it is deterministic in
/// the capability list.
pub proof fn lemma_preferred_format_deterministic(
    formats: Seq<TextureFormat>,
    f1: TextureFormat,
    f2: TextureFormat,
)
    requires
        is_preferred_format(formats, f1),
        is_preferred_format(formats, f2),
    ensures
        f1 == f2,
{
    if has_srgb(formats) {
        let i1 = choose|i: int|
            0 <= i < formats.len() && f1 == formats[i] && formats[i].srgb && (forall|j: int|
                0 <= j < i ==> !formats[j].srgb);
        let i2 = choose|i: int|
            0 <= i < formats.len() && f2 == formats[i] && formats[i].srgb && (forall|j: int|
                0 <= j < i ==> !formats[j].srgb);
        if i1 < i2 {
            assert(!formats[i1].srgb);
        }
        if i2 < i1 {
            assert(!formats[i2].srgb);
        }
    }
}

/// Picks the surface format: the first sRGB-capable entry, else the
/// first entry of the capability list.
pub fn preferred_format(formats: &Vec<TextureFormat>) -> (r: TextureFormat)
    requires
        formats@.len() > 0,
    ensures
        is_preferred_format(formats@, r),
{
    let n: usize = formats.len();
    let mut i: usize = 0;
    while i < n
        invariant
            n == formats@.len(),
            i <= n,
            forall|j: int| 0 <= j < i ==> !formats@[j].srgb,
        decreases n - i,
    {
        if formats[i].srgb {
            return formats[i];
        }
        i = i + 1;
    }
    formats[0]
}

/// The presentation surface's negotiated state: the modes chosen at
/// creation from the capability set, and the current configuration.
/// `config` is `Some` exactly while the surface is presentable; clearing
/// it is how a degenerate (zero-sized) window is represented.
pub struct SurfaceCtx {
    pub format: TextureFormat,
    pub present_mode: PresentMode,
    pub alpha_mode: AlphaMode,
    pub config: Option<SurfaceConfiguration>,
}

impl SurfaceCtx {
    /// A held configuration always repeats the chosen modes, carries a
    /// non-zero size, and asks for the fixed frame latency.
    pub open spec fn wf(self) -> bool {
        self.config matches Some(c) ==> {
            &&& c.format == self.format
            &&& c.present_mode == self.present_mode
            &&& c.alpha_mode == self.alpha_mode
            &&& !degenerate(c.width, c.height)
            &&& c.desired_maximum_frame_latency == MAX_FRAME_LATENCY
        }
    }

    /// The configuration this surface takes for a given size.
    pub open spec fn spec_config_for(self, width: u32, height: u32) -> SurfaceConfiguration {
        SurfaceConfiguration {
            format: self.format,
            width,
            height,
            present_mode: self.present_mode,
            alpha_mode: self.alpha_mode,
            desired_maximum_frame_latency: MAX_FRAME_LATENCY,
        }
    }

    pub open spec fn spec_is_configured(self) -> bool {
        self.config is Some
    }

    /// The resize transition: a degenerate size clears the
    /// configuration; a non-zero size (re)configures at that size with
    /// the chosen modes unchanged.
    pub open spec fn spec_resize(self, width: u32, height: u32) -> SurfaceCtx {
        if degenerate(width, height) {
            SurfaceCtx { config: None, ..self }
        } else {
            SurfaceCtx { config: Some(self.spec_config_for(width, height)), ..self }
        }
    }

    /// Negotiates the surface state: chooses the first sRGB-capable
    /// format (else the first format), takes present and alpha mode from
    /// position 0 of their capability lists, and configures for the
    /// window's current size unless that size is degenerate, in which
    /// case the surface starts unconfigured. An empty capability list is
    /// an invariant violation.
    pub fn new<W>(window_ctx: &WindowCtx<W>, caps: &SurfaceCapabilities) -> (r: Result<
        SurfaceCtx,
        Error,
    >)
        ensures
            r is Ok <==> caps.formats@.len() > 0 && caps.present_modes@.len() > 0
                && caps.alpha_modes@.len() > 0,
            r matches Ok(s) ==> {
                &&& is_preferred_format(caps.formats@, s.format)
                &&& s.present_mode == caps.present_modes@[0]
                &&& s.alpha_mode == caps.alpha_modes@[0]
                &&& s.config == (if degenerate(window_ctx.width, window_ctx.height) {
                    Option::<SurfaceConfiguration>::None
                } else {
                    Some(s.spec_config_for(window_ctx.width, window_ctx.height))
                })
                &&& s.wf()
            },
            r matches Err(e) ==> e is Invariant,
    {
        if caps.formats.len() == 0 {
            return Err(Error::Invariant("surface reports no supported format"));
        }
        if caps.present_modes.len() == 0 {
            return Err(Error::Invariant("surface reports no supported present mode"));
        }
        if caps.alpha_modes.len() == 0 {
            return Err(Error::Invariant("surface reports no supported alpha mode"));
        }
        let format = preferred_format(&caps.formats);
        let present_mode = caps.present_modes[0];
        let alpha_mode = caps.alpha_modes[0];
        let mut ctx = SurfaceCtx { format, present_mode, alpha_mode, config: None };
        let (width, height) = window_ctx.size();
        if width != 0 && height != 0 {
            ctx.config = Some(
                SurfaceConfiguration {
                    format,
                    width,
                    height,
                    present_mode,
                    alpha_mode,
                    desired_maximum_frame_latency: MAX_FRAME_LATENCY,
                },
            );
        }
        Ok(ctx)
    }

    /// Applies the resize transition and returns the configuration that
    /// must now be applied against the device: `None` means no GPU call
    /// is to be made (the degenerate case), `Some(c)` means the surface
    /// is to be reconfigured with `c`.
    pub fn resize(&mut self, width: u32, height: u32) -> (r: Option<SurfaceConfiguration>)
        ensures
            *final(self) == old(self).spec_resize(width, height),
            r == final(self).config,
            final(self).wf(),
            final(self).spec_is_configured() <==> !degenerate(width, height),
    {
        if width == 0 || height == 0 {
            self.config = None;
            return None;
        }
        let c = SurfaceConfiguration {
            format: self.format,
            width,
            height,
            present_mode: self.present_mode,
            alpha_mode: self.alpha_mode,
            desired_maximum_frame_latency: MAX_FRAME_LATENCY,
        };
        self.config = Some(c);
        Some(c)
    }

    /// True iff a configuration is currently held: what the frame
    /// controller consults before acquiring an image.
    pub fn is_configured(&self) -> (r: bool)
        ensures
            r == self.spec_is_configured(),
    {
        self.config.is_some()
    }
}

/// Propagates a window resize: updates the window's cached size and
/// hands the surface exactly that size, so the two can never drift
/// apart. Returns the reconfiguration command, as `SurfaceCtx::resize`
/// does.
pub fn resize_all<W>(
    window_ctx: &mut WindowCtx<W>,
    surface_ctx: &mut SurfaceCtx,
    width: u32,
    height: u32,
) -> (r: Option<SurfaceConfiguration>)
    ensures
        final(window_ctx).window == old(window_ctx).window,
        final(window_ctx).width == width,
        final(window_ctx).height == height,
        *final(surface_ctx) == old(surface_ctx).spec_resize(width, height),
        r == final(surface_ctx).config,
        sizes_in_sync(*final(window_ctx), *final(surface_ctx)),
{
    window_ctx.resize(width, height);
    surface_ctx.resize(width, height)
}

/// The cross-context invariant: while the surface is configured, its
/// configured size is the window's cached size.
pub open spec fn sizes_in_sync<W>(window_ctx: WindowCtx<W>, surface_ctx: SurfaceCtx) -> bool {
    surface_ctx.config matches Some(c) ==> c.width == window_ctx.width && c.height
        == window_ctx.height
}

/// The resize transition applied to a whole sequence of sizes, left to
/// right.
pub open spec fn spec_resize_seq(s: SurfaceCtx, sizes: Seq<(u32, u32)>) -> SurfaceCtx
    decreases sizes.len(),
{
    if sizes.len() == 0 {
        s
    } else {
        spec_resize_seq(s.spec_resize(sizes[0].0, sizes[0].1), sizes.skip(1))
    }
}

/// The reconfiguration commands a sequence of resizes issues, one per
/// step: `None` where the step makes no GPU call.
pub open spec fn spec_resize_seq_commands(s: SurfaceCtx, sizes: Seq<(u32, u32)>) -> Seq<
    Option<SurfaceConfiguration>,
>
    decreases sizes.len(),
{
    if sizes.len() == 0 {
        Seq::empty()
    } else {
        seq![s.spec_resize(sizes[0].0, sizes[0].1).config] + spec_resize_seq_commands(
            s.spec_resize(sizes[0].0, sizes[0].1),
            sizes.skip(1),
        )
    }
}

/// One command per step: the command trace is as long as the size
/// sequence.
pub proof fn lemma_resize_seq_commands_len(s: SurfaceCtx, sizes: Seq<(u32, u32)>)
    ensures
        spec_resize_seq_commands(s, sizes).len() == sizes.len(),
    decreases sizes.len(),
{
    if sizes.len() > 0 {
        lemma_resize_seq_commands_len(s.spec_resize(sizes[0].0, sizes[0].1), sizes.skip(1));
    }
}

/// Any non-empty run of degenerate resizes leaves the surface
/// unconfigured, and not one of its steps issues a GPU reconfiguration
/// command.
pub proof fn lemma_degenerate_resizes_unconfigure(s: SurfaceCtx, sizes: Seq<(u32, u32)>)
    requires
        sizes.len() > 0,
        forall|i: int| 0 <= i < sizes.len() ==> degenerate(sizes[i].0, sizes[i].1),
    ensures
        !spec_resize_seq(s, sizes).spec_is_configured(),
        forall|i: int|
            0 <= i < sizes.len() ==> spec_resize_seq_commands(s, sizes)[i] is None,
    decreases sizes.len(),
{
    let s1 = s.spec_resize(sizes[0].0, sizes[0].1);
    let rest = sizes.skip(1);
    let cmds = spec_resize_seq_commands(s, sizes);
    assert(degenerate(sizes[0].0, sizes[0].1));
    assert(s1.config is None);
    assert(cmds == seq![s1.config] + spec_resize_seq_commands(s1, rest));
    lemma_resize_seq_commands_len(s1, rest);
    if sizes.len() == 1 {
        assert(spec_resize_seq(s, sizes) == spec_resize_seq(s1, rest));
        assert(spec_resize_seq(s1, rest) == s1);
        assert(cmds[0] == s1.config);
    } else {
        assert forall|i: int| 0 <= i < rest.len() implies degenerate(
            rest[i].0,
            rest[i].1,
        ) by {
            assert(rest[i] == sizes[i + 1]);
        }
        lemma_degenerate_resizes_unconfigure(s1, rest);
        assert forall|i: int| 0 <= i < sizes.len() implies cmds[i] is None by {
            if i == 0 {
                assert(cmds[0] == s1.config);
            } else {
                assert(cmds[i] == spec_resize_seq_commands(s1, rest)[i - 1]);
            }
        }
    }
}

/// Two non-zero resizes in a row leave the configuration at exactly the
/// second size, with format, present mode and alpha mode untouched.
pub proof fn lemma_round_trip_resize(s: SurfaceCtx, w1: u32, h1: u32, w2: u32, h2: u32)
    requires
        !degenerate(w1, h1),
        !degenerate(w2, h2),
    ensures
        ({
            let s2 = s.spec_resize(w1, h1).spec_resize(w2, h2);
            &&& s2.config == Some(s.spec_config_for(w2, h2))
            &&& s2.format == s.format
            &&& s2.present_mode == s.present_mode
            &&& s2.alpha_mode == s.alpha_mode
            &&& s2.spec_is_configured()
        }),
{
}

} // verus!
