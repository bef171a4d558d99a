use render_loop::event::Size;
use render_loop::surface::{
    preferred_format, preferred_index, srgb_flags, SurfaceCapabilities, SurfaceConfig,
};
use wgpu::{AstcBlock, AstcChannel, CompositeAlphaMode, PresentMode, TextureFormat};

#[test]
fn preferred_index_is_the_first_flagged_entry() {
    assert_eq!(preferred_index(&vec![false, true, true]), 1);
    assert_eq!(preferred_index(&vec![false, false, false, true]), 3);
}

#[test]
fn preferred_index_of_a_leading_flag_is_zero() {
    assert_eq!(preferred_index(&vec![true]), 0);
    assert_eq!(preferred_index(&vec![true, true, false]), 0);
}

#[test]
fn preferred_index_without_flags_is_zero() {
    assert_eq!(preferred_index(&vec![false]), 0);
    assert_eq!(preferred_index(&vec![false, false, false]), 0);
}

#[test]
fn srgb_flags_follow_the_formats() {
    let formats = vec![
        TextureFormat::Bgra8Unorm,
        TextureFormat::Bgra8UnormSrgb,
        TextureFormat::Rgba8UnormSrgb,
        TextureFormat::Rgba16Float,
        TextureFormat::Bc7RgbaUnormSrgb,
        TextureFormat::Depth32Float,
    ];
    assert_eq!(srgb_flags(&formats), vec![false, true, true, false, true, false]);
}

#[test]
fn srgb_flags_of_nothing_are_empty() {
    assert_eq!(srgb_flags(&Vec::new()), Vec::<bool>::new());
}

#[test]
fn srgb_flags_tell_compressed_channels_apart() {
    let linear = TextureFormat::Astc { block: AstcBlock::B4x4, channel: AstcChannel::Unorm };
    let srgb = TextureFormat::Astc { block: AstcBlock::B4x4, channel: AstcChannel::UnormSrgb };
    let hdr = TextureFormat::Astc { block: AstcBlock::B4x4, channel: AstcChannel::Hdr };
    assert_eq!(srgb_flags(&vec![linear, srgb, hdr]), vec![false, true, false]);
}

#[test]
fn preferred_format_is_the_first_srgb_format() {
    let formats = vec![
        TextureFormat::Bgra8Unorm,
        TextureFormat::Rgba8Unorm,
        TextureFormat::Rgba8UnormSrgb,
        TextureFormat::Bgra8UnormSrgb,
    ];
    assert_eq!(preferred_format(&formats), 2);
}

#[test]
fn preferred_format_falls_back_to_the_first_format() {
    let formats = vec![TextureFormat::Rgba16Float, TextureFormat::Bgra8Unorm];
    assert_eq!(preferred_format(&formats), 0);
}

#[test]
fn capabilities_need_an_entry_in_every_list() {
    let full = SurfaceCapabilities {
        formats: vec![TextureFormat::Bgra8Unorm],
        present_modes: vec![PresentMode::Fifo],
        alpha_modes: vec![CompositeAlphaMode::Opaque],
    };
    assert!(full.is_usable());
    let no_formats = SurfaceCapabilities {
        formats: vec![],
        present_modes: vec![PresentMode::Fifo],
        alpha_modes: vec![CompositeAlphaMode::Opaque],
    };
    assert!(!no_formats.is_usable());
    let no_present_modes = SurfaceCapabilities {
        formats: vec![TextureFormat::Bgra8Unorm],
        present_modes: vec![],
        alpha_modes: vec![CompositeAlphaMode::Opaque],
    };
    assert!(!no_present_modes.is_usable());
    let no_alpha_modes = SurfaceCapabilities {
        formats: vec![TextureFormat::Bgra8Unorm],
        present_modes: vec![PresentMode::Fifo],
        alpha_modes: vec![],
    };
    assert!(!no_alpha_modes.is_usable());
}

#[test]
fn configuration_takes_the_srgb_format_and_the_first_modes() {
    let caps = SurfaceCapabilities {
        formats: vec![TextureFormat::Bgra8Unorm, TextureFormat::Bgra8UnormSrgb],
        present_modes: vec![PresentMode::Mailbox, PresentMode::Fifo],
        alpha_modes: vec![CompositeAlphaMode::PreMultiplied, CompositeAlphaMode::Opaque],
    };
    let config = SurfaceConfig::for_surface(&caps, Size { width: 1280, height: 720 });
    assert_eq!(
        config,
        SurfaceConfig {
            format: TextureFormat::Bgra8UnormSrgb,
            present_mode: PresentMode::Mailbox,
            alpha_mode: CompositeAlphaMode::PreMultiplied,
            width: 1280,
            height: 720,
        }
    );
}

#[test]
fn configuration_without_srgb_takes_the_first_format() {
    let caps = SurfaceCapabilities {
        formats: vec![TextureFormat::Rgba8Unorm, TextureFormat::Bgra8Unorm],
        present_modes: vec![PresentMode::Fifo],
        alpha_modes: vec![CompositeAlphaMode::Auto],
    };
    let config = SurfaceConfig::for_surface(&caps, Size { width: 0, height: 3 });
    assert_eq!(config.format, TextureFormat::Rgba8Unorm);
    assert_eq!(config.present_mode, PresentMode::Fifo);
    assert_eq!(config.alpha_mode, CompositeAlphaMode::Auto);
    assert_eq!((config.width, config.height), (0, 3));
}

#[test]
fn size_is_drawable_with_pixels_in_both_directions() {
    assert!(Size { width: 1, height: 1 }.is_drawable());
    assert!(Size { width: u32::MAX, height: 7 }.is_drawable());
    assert!(!Size { width: 0, height: 7 }.is_drawable());
    assert!(!Size { width: 7, height: 0 }.is_drawable());
    assert!(!Size { width: 0, height: 0 }.is_drawable());
}
