use vstd::prelude::*;
use crate::geometry::Size;

verus! {

/// One texture format a surface supports, as the lifecycle logic sees it:
/// its position in the host's capability list and whether it is
/// perceptually encoded (sRGB).
#[derive(Clone, Copy, PartialEq, Eq, Structural, Debug)]
pub struct TextureFormat {
    /// Index of the format in the surface's capability list.
    pub id: u32,
    /// Whether the format is flagged as perceptually encoded.
    pub srgb: bool,
}

/// How the surface's textures will be used. The render loop only ever draws
/// to the surface, so only the render-attachment usage exists here.
#[derive(Clone, Copy, PartialEq, Eq, Structural, Debug)]
pub enum SurfaceUsage {
    RenderAttachment,
}

/// What the surface reported it supports: formats, present modes and alpha
/// modes, each in the host's preference order. Present and alpha modes are
/// carried as indices into the host's capability lists.
#[derive(Clone, Debug)]
pub struct SurfaceCaps {
    pub formats: Vec<TextureFormat>,
    pub present_modes: Vec<u32>,
    pub alpha_modes: Vec<u32>,
}

impl SurfaceCaps {
    /// A surface that can be configured at all reports at least one entry in
    /// each capability list.
    pub open spec fn wf(self) -> bool {
        &&& self.formats@.len() > 0
        &&& self.present_modes@.len() > 0
        &&& self.alpha_modes@.len() > 0
    }
}

/// Index of the first sRGB-flagged format, or the list's length if none is.
pub open spec fn srgb_index(formats: Seq<TextureFormat>) -> int
    decreases formats.len(),
{
    if formats.len() == 0 {
        0
    } else if formats[0].srgb {
        0
    } else {
        1 + srgb_index(formats.skip(1))
    }
}

/// `srgb_index` points at the first sRGB format: everything before it is not
/// sRGB, and it is in bounds exactly when some sRGB format exists.
pub proof fn lemma_srgb_index(formats: Seq<TextureFormat>)
    ensures
        0 <= srgb_index(formats) <= formats.len(),
        srgb_index(formats) < formats.len() ==> formats[srgb_index(formats)].srgb,
        forall|i: int| 0 <= i < srgb_index(formats) ==> !(#[trigger] formats[i]).srgb,
    decreases formats.len(),
{
    if formats.len() == 0 {
    } else if formats[0].srgb {
    } else {
        lemma_srgb_index(formats.skip(1));
        assert forall|i: int| 0 <= i < srgb_index(formats) implies !(#[trigger] formats[i]).srgb by {
            if i >= 1 {
                assert(formats.skip(1)[i - 1] == formats[i]);
            }
        }
    }
}

/// The format the configuration is built with: the first format flagged as
/// sRGB, falling back to the first supported format if none qualifies.
pub open spec fn chosen_format(formats: Seq<TextureFormat>) -> TextureFormat
    recommends formats.len() > 0,
{
    if srgb_index(formats) < formats.len() {
        formats[srgb_index(formats)]
    } else {
        formats[0]
    }
}

/// Picks the first sRGB-flagged format, or the first format if none is.
pub fn select_format(formats: &Vec<TextureFormat>) -> (f: TextureFormat)
    requires
        formats@.len() > 0,
    ensures
        f == chosen_format(formats@),
{
    let n = formats.len();
    let mut i: usize = 0;
    while i < n
        invariant
            0 <= i <= n,
            n == formats@.len(),
            forall|j: int| 0 <= j < i ==> !(#[trigger] formats@[j]).srgb,
        decreases n - i,
    {
        if formats[i].srgb {
            proof {
                lemma_srgb_index(formats@);
                if srgb_index(formats@) < i {
                    assert(formats@[srgb_index(formats@)].srgb);
                }
                if srgb_index(formats@) > i {
                    assert(!formats@[i as int].srgb);
                }
            }
            return formats[i];
        }
        i += 1;
    }
    proof {
        lemma_srgb_index(formats@);
    }
    formats[0]
}

/// The surface configuration: everything that is applied to the surface
/// before it can be presented to. `width` and `height` are the source of
/// truth for the drawable area; present and alpha modes are indices into the
/// host's capability lists.
#[derive(Clone, Copy, PartialEq, Eq, Structural, Debug)]
pub struct SurfaceConfig {
    pub format: TextureFormat,
    pub usage: SurfaceUsage,
    pub width: u32,
    pub height: u32,
    pub present_mode: u32,
    pub alpha_mode: u32,
    /// Maximum number of queued frames.
    pub frame_latency: u32,
}

impl SurfaceConfig {
    /// The configuration covers exactly the given drawable area.
    pub open spec fn covers(self, size: Size) -> bool {
        self.width == size.width && self.height == size.height
    }
}

} // verus!
