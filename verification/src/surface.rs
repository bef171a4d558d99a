//! Choosing how a surface is configured from what it is capable of.
//!
//! The shaders assume an sRGB surface, so the first sRGB format a surface
//! offers is preferred; a surface that offers none is used with the first
//! format it lists.

use vstd::prelude::*;
use crate::event::Size;

verus! {

/// `wgpu::TextureFormat`, carried through as an opaque value.
#[verifier::external_type_specification]
#[verifier::external_body]
pub struct ExTextureFormat(wgpu::TextureFormat);

/// `wgpu::PresentMode`, carried through as an opaque value.
#[verifier::external_type_specification]
#[verifier::external_body]
pub struct ExPresentMode(wgpu::PresentMode);

/// `wgpu::CompositeAlphaMode`, carried through as an opaque value.
#[verifier::external_type_specification]
#[verifier::external_body]
pub struct ExCompositeAlphaMode(wgpu::CompositeAlphaMode);

/// Whether `wgpu` counts a texture format as an sRGB format.
pub uninterp spec fn srgb(format: wgpu::TextureFormat) -> bool;

/// `wgpu::TextureFormat::is_srgb` compares the format with the same format
/// stripped of its sRGB suffix. It reads nothing but the format, so its
/// answer is a fixed property of the format, here called [`srgb`]. Nothing
/// else is claimed about which formats have that property.
pub assume_specification[ wgpu::TextureFormat::is_srgb ](format: &wgpu::TextureFormat) -> (b: bool)
    ensures
        b == srgb(*format),
;

/// For each format in turn, whether it is an sRGB format.
pub open spec fn srgb_flags_of(formats: Seq<wgpu::TextureFormat>) -> Seq<bool> {
    Seq::new(formats.len(), |i: int| srgb(formats[i]))
}

/// `i` is the position of the preferred entry of a list whose entries are
/// flagged sRGB or not: the first flagged entry, or the first entry of all
/// when none is flagged.
pub open spec fn is_preferred(flags: Seq<bool>, i: int) -> bool {
    &&& 0 <= i < flags.len()
    &&& forall|j: int| 0 <= j < i ==> !flags[j]
    &&& flags[i] || (i == 0 && forall|j: int| 0 <= j < flags.len() ==> !flags[j])
}

/// The position of the preferred entry of a non-empty list.
pub open spec fn preferred(flags: Seq<bool>) -> int {
    choose|i: int| is_preferred(flags, i)
}

/// A list has at most one preferred entry, so [`preferred`] names it.
pub proof fn lemma_preferred_unique(flags: Seq<bool>, i: int)
    requires
        is_preferred(flags, i),
    ensures
        preferred(flags) == i,
{
    let k = preferred(flags);
    assert(is_preferred(flags, k));
    if k < i {
        assert(!flags[k]);
    } else if i < k {
        assert(!flags[i]);
    }
}

/// Looks for the preferred entry of a list whose first `k` entries are not
/// flagged.
proof fn lemma_search_preferred(flags: Seq<bool>, k: int) -> (i: int)
    requires
        flags.len() > 0,
        0 <= k <= flags.len(),
        forall|j: int| 0 <= j < k ==> !flags[j],
    ensures
        is_preferred(flags, i),
    decreases flags.len() - k,
{
    if k == flags.len() {
        0
    } else if flags[k] {
        k
    } else {
        lemma_search_preferred(flags, k + 1)
    }
}

/// Every list that is not empty has a preferred entry.
pub proof fn lemma_preferred_exists(flags: Seq<bool>)
    requires
        flags.len() > 0,
    ensures
        is_preferred(flags, preferred(flags)),
{
    let i = lemma_search_preferred(flags, 0);
    assert(is_preferred(flags, i));
}

/// What a surface can do on a given adapter.
pub struct SurfaceCapabilities {
    /// The texture formats the surface supports, most suitable first.
    pub formats: Vec<wgpu::TextureFormat>,
    /// The presentation modes the surface supports.
    pub present_modes: Vec<wgpu::PresentMode>,
    /// The ways the surface can treat the alpha channel.
    pub alpha_modes: Vec<wgpu::CompositeAlphaMode>,
}

impl SurfaceCapabilities {
    /// A surface that is incompatible with its adapter reports empty lists;
    /// such a surface cannot be configured.
    pub open spec fn usable(&self) -> bool {
        &&& self.formats@.len() > 0
        &&& self.present_modes@.len() > 0
        &&& self.alpha_modes@.len() > 0
    }

    /// Whether the surface offers something of everything a configuration
    /// needs.
    pub fn is_usable(&self) -> (b: bool)
        ensures
            b == self.usable(),
    {
        self.formats.len() > 0 && self.present_modes.len() > 0 && self.alpha_modes.len() > 0
    }
}

/// How a surface creates the textures that frames are drawn to.
#[derive(Clone, Copy, Debug, PartialEq, Eq)]
pub struct SurfaceConfig {
    pub format: wgpu::TextureFormat,
    pub present_mode: wgpu::PresentMode,
    pub alpha_mode: wgpu::CompositeAlphaMode,
    pub width: u32,
    pub height: u32,
}

impl SurfaceConfig {
    /// The configuration chosen for a surface with capabilities `caps` that
    /// covers a drawable area of extent `size`.
    pub open spec fn chosen(caps: SurfaceCapabilities, size: Size) -> SurfaceConfig {
        SurfaceConfig {
            format: caps.formats@[preferred(srgb_flags_of(caps.formats@))],
            present_mode: caps.present_modes@[0],
            alpha_mode: caps.alpha_modes@[0],
            width: size.width,
            height: size.height,
        }
    }

    /// The same configuration for a drawable area of another extent.
    pub open spec fn with_size(self, size: Size) -> SurfaceConfig {
        SurfaceConfig { width: size.width, height: size.height, ..self }
    }

    /// The extent of the drawable area the configuration is for.
    pub open spec fn size(self) -> Size {
        Size { width: self.width, height: self.height }
    }

    /// Configures a surface for a drawable area of extent `size`: with its
    /// preferred format, and with the first presentation mode and the first
    /// alpha mode it lists.
    pub fn for_surface(caps: &SurfaceCapabilities, size: Size) -> (config: SurfaceConfig)
        requires
            caps.usable(),
        ensures
            config == SurfaceConfig::chosen(*caps, size),
    {
        let i: usize = preferred_format(&caps.formats);
        SurfaceConfig {
            format: caps.formats[i],
            present_mode: caps.present_modes[0],
            alpha_mode: caps.alpha_modes[0],
            width: size.width,
            height: size.height,
        }
    }
}

/// The format a usable surface is configured with is one it offers. It is
/// an sRGB format whenever the surface offers one, and the first format on
/// offer otherwise.
pub proof fn lemma_chosen_format(caps: SurfaceCapabilities, size: Size)
    requires
        caps.usable(),
    ensures
        caps.formats@.contains(SurfaceConfig::chosen(caps, size).format),
        (exists|i: int| 0 <= i < caps.formats@.len() && srgb(#[trigger] caps.formats@[i])) ==> srgb(
            SurfaceConfig::chosen(caps, size).format,
        ),
        (forall|i: int| 0 <= i < caps.formats@.len() ==> !srgb(#[trigger] caps.formats@[i]))
            ==> SurfaceConfig::chosen(caps, size).format == caps.formats@[0],
{
    let flags = srgb_flags_of(caps.formats@);
    lemma_preferred_exists(flags);
    let k = preferred(flags);
    assert(caps.formats@[k] == SurfaceConfig::chosen(caps, size).format);
    if exists|i: int| 0 <= i < caps.formats@.len() && srgb(#[trigger] caps.formats@[i]) {
        let i = choose|i: int| 0 <= i < caps.formats@.len() && srgb(#[trigger] caps.formats@[i]);
        assert(flags[i]);
    }
    if forall|i: int| 0 <= i < caps.formats@.len() ==> !srgb(#[trigger] caps.formats@[i]) {
        if k != 0 {
            assert(flags[k]);
            assert(srgb(caps.formats@[k]));
        }
    }
}

/// Finds the preferred entry of a list of sRGB flags.
pub fn preferred_index(flags: &Vec<bool>) -> (i: usize)
    requires
        flags@.len() > 0,
    ensures
        is_preferred(flags@, i as int),
        i == preferred(flags@),
{
    let mut i: usize = 0;
    while i < flags.len()
        invariant
            i <= flags@.len(),
            forall|j: int| 0 <= j < i ==> !flags@[j],
        decreases flags@.len() - i,
    {
        if flags[i] {
            proof {
                lemma_preferred_unique(flags@, i as int);
            }
            return i;
        }
        i += 1;
    }
    proof {
        lemma_preferred_unique(flags@, 0);
    }
    0
}

/// Asks `wgpu` about each format in turn.
pub fn srgb_flags(formats: &Vec<wgpu::TextureFormat>) -> (flags: Vec<bool>)
    ensures
        flags@ == srgb_flags_of(formats@),
{
    let mut flags: Vec<bool> = Vec::new();
    let mut i: usize = 0;
    while i < formats.len()
        invariant
            i <= formats@.len(),
            flags@.len() == i,
            forall|j: int| 0 <= j < i ==> flags@[j] == srgb(formats@[j]),
        decreases formats@.len() - i,
    {
        flags.push(formats[i].is_srgb());
        i += 1;
    }
    assert(flags@ =~= srgb_flags_of(formats@));
    flags
}

/// Finds the format a surface is configured with: the first sRGB format on
/// offer, or the first format of all when no sRGB format is on offer.
pub fn preferred_format(formats: &Vec<wgpu::TextureFormat>) -> (i: usize)
    requires
        formats@.len() > 0,
    ensures
        is_preferred(srgb_flags_of(formats@), i as int),
        i == preferred(srgb_flags_of(formats@)),
{
    let flags = srgb_flags(formats);
    preferred_index(&flags)
}

} // verus!
