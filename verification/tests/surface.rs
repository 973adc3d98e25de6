use triangle_renderer::surface::{
    PhysicalSize, PresentMode, SurfaceConfig, SurfaceManager, TextureUsage,
};
use wgpu::TextureFormat;

fn size(width: u32, height: u32) -> PhysicalSize {
    PhysicalSize { width, height }
}

fn manager_800_by_600() -> SurfaceManager {
    let formats = vec![TextureFormat::Bgra8UnormSrgb, TextureFormat::Rgba8UnormSrgb];
    SurfaceManager::configure(&formats, size(800, 600))
}

#[test]
fn configure_takes_first_format_and_fifo() {
    let formats = vec![
        TextureFormat::Rgba8UnormSrgb,
        TextureFormat::Bgra8UnormSrgb,
        TextureFormat::Rgba16Float,
    ];
    let manager = SurfaceManager::configure(&formats, size(1280, 720));
    assert_eq!(
        manager.config(),
        SurfaceConfig {
            usage: TextureUsage::RenderAttachment,
            format: TextureFormat::Rgba8UnormSrgb,
            width: 1280,
            height: 720,
            present_mode: PresentMode::Fifo,
        }
    );
    assert_eq!(manager.size(), size(1280, 720));
}

#[test]
fn configure_with_a_single_format() {
    let formats = vec![TextureFormat::Bgra8Unorm];
    let manager = SurfaceManager::configure(&formats, size(1, 1));
    assert_eq!(manager.config().format, TextureFormat::Bgra8Unorm);
    assert_eq!(manager.size(), size(1, 1));
}

#[test]
fn resize_takes_positive_dimensions() {
    let mut manager = manager_800_by_600();
    let applied = manager.resize(size(400, 300));
    let expected = SurfaceConfig {
        usage: TextureUsage::RenderAttachment,
        format: TextureFormat::Bgra8UnormSrgb,
        width: 400,
        height: 300,
        present_mode: PresentMode::Fifo,
    };
    assert_eq!(applied, Some(expected));
    assert_eq!(manager.config(), expected);
}

#[test]
fn resize_to_same_size_is_applied_again() {
    let mut manager = manager_800_by_600();
    let before = manager.config();
    assert_eq!(manager.resize(size(800, 600)), Some(before));
    assert_eq!(manager.config(), before);
}

#[test]
fn resize_with_zero_width_changes_nothing() {
    let mut manager = manager_800_by_600();
    let before = manager.config();
    assert_eq!(manager.resize(size(0, 300)), None);
    assert_eq!(manager.config(), before);
}

#[test]
fn resize_with_zero_height_changes_nothing() {
    let mut manager = manager_800_by_600();
    let before = manager.config();
    assert_eq!(manager.resize(size(400, 0)), None);
    assert_eq!(manager.config(), before);
}

#[test]
fn resize_to_nothing_changes_nothing_however_often() {
    let mut manager = manager_800_by_600();
    let before = manager.config();
    for _ in 0..5 {
        assert_eq!(manager.resize(size(0, 0)), None);
        assert_eq!(manager.config(), before);
    }
}

#[test]
fn last_valid_resize_wins() {
    let mut manager = manager_800_by_600();
    let sizes = [(640, 480), (1, 1), (1920, 1080), (u32::MAX, u32::MAX), (1024, 768)];
    for (width, height) in sizes {
        let applied = manager.resize(size(width, height));
        assert_eq!(applied, Some(manager.config()));
        assert_eq!(manager.size(), size(width, height));
    }
    assert_eq!(manager.size(), size(1024, 768));
    assert_eq!(manager.config().format, TextureFormat::Bgra8UnormSrgb);
    assert_eq!(manager.config().present_mode, PresentMode::Fifo);
}

#[test]
fn degenerate_resizes_between_valid_ones_are_skipped() {
    let mut manager = manager_800_by_600();
    let sizes = [(640, 480), (0, 480), (320, 240), (0, 0), (320, 0)];
    let mut applied = Vec::new();
    for (width, height) in sizes {
        if let Some(config) = manager.resize(size(width, height)) {
            applied.push((config.width, config.height));
        }
        assert!(manager.config().width > 0 && manager.config().height > 0);
    }
    assert_eq!(applied, vec![(640, 480), (320, 240)]);
    assert_eq!(manager.size(), size(320, 240));
}

#[test]
fn is_presentable_wants_both_dimensions() {
    assert!(size(1, 1).is_presentable());
    assert!(size(800, 600).is_presentable());
    assert!(!size(0, 600).is_presentable());
    assert!(!size(800, 0).is_presentable());
    assert!(!size(0, 0).is_presentable());
}
