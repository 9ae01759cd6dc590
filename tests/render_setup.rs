use raytracing::renderer::{
    BackendConfig, BackendError, DebugLevel, Pixel, PixelCursor, RendererConfig,
    STDrivenRendererConfig,
};

fn config(backend: BackendConfig) -> RendererConfig {
    RendererConfig { backend, dbg_level: DebugLevel::Silent, max_depth: 5, spp: 4 }
}

#[test]
fn single_thread_backend_gets_one_cell_per_pixel() {
    let r = config(BackendConfig::CPUDrivenS).init_backend((640, 480));
    assert_eq!(r, Ok(STDrivenRendererConfig { fb_size: 307200, max_depth: 5 }));
}

#[test]
fn multi_thread_backend_fails_at_setup() {
    let r = config(BackendConfig::CPUDrivenM(4)).init_backend((8, 8));
    assert_eq!(r, Err(BackendError::Unimplemented(4)));
}

#[test]
fn cursor_walks_rows_then_stops() {
    let mut c = PixelCursor::new((3, 2));
    let mut seen = Vec::new();
    while let Some(p) = c.next() {
        seen.push(p);
    }
    let expected: Vec<Pixel> = (0..6usize)
        .map(|i| Pixel { x: (i % 3) as u32, y: (i / 3) as u32, index: i })
        .collect();
    assert_eq!(seen, expected);
    assert_eq!(c.next(), None);
    assert_eq!(c.remaining(), 0);
}

#[test]
fn cursor_counts_remaining() {
    let mut c = PixelCursor::new((4, 4));
    assert_eq!(c.remaining(), 16);
    assert_eq!(c.next(), Some(Pixel { x: 0, y: 0, index: 0 }));
    assert_eq!(c.next(), Some(Pixel { x: 1, y: 0, index: 1 }));
    assert_eq!(c.remaining(), 14);
}

#[test]
fn cursor_on_empty_screen_is_exhausted() {
    let mut c = PixelCursor::new((0, 7));
    assert_eq!(c.next(), None);
    let mut d = PixelCursor::new((5, 0));
    assert_eq!(d.next(), None);
}
