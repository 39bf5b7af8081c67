use std::collections::HashMap;
use std::io::Cursor;

use icon_extractor::error::IconError;
use icon_extractor::geometry::BitmapRecord;
use icon_extractor::session::{output_file_name, Action, Event, Extraction, IconPlanes, Phase, ResourceKind};

/// A stand-in for the operating system: it hands out handles, answers the
/// queries from its configuration and tracks which handles are live.
struct FakeOs {
    count: u32,
    icon: u64,
    planes: Option<IconPlanes>,
    record: Option<BitmapRecord>,
    scanlines: i32,
    short_copy: bool,
    encode_ok: bool,
    live: HashMap<u64, u32>,
    acquisitions: u32,
    releases: u32,
    double_release: bool,
    encoded: Option<Vec<u8>>,
}

impl FakeOs {
    fn icon32() -> FakeOs {
        FakeOs::sized(32, 32)
    }

    fn sized(w: i32, h: i32) -> FakeOs {
        FakeOs {
            count: 1,
            icon: 101,
            planes: Some(IconPlanes { color: 202, mask: 303 }),
            record: Some(BitmapRecord { width: w, height: h, bits_per_pixel: 32 }),
            scanlines: h,
            short_copy: false,
            encode_ok: true,
            live: HashMap::new(),
            acquisitions: 0,
            releases: 0,
            double_release: false,
            encoded: None,
        }
    }

    fn acquire(&mut self, id: u64) {
        if id != 0 {
            *self.live.entry(id).or_insert(0) += 1;
            self.acquisitions += 1;
        }
    }

    fn release(&mut self, id: u64) {
        self.releases += 1;
        match self.live.get_mut(&id) {
            Some(n) if *n > 0 => *n -= 1,
            _ => self.double_release = true,
        }
    }

    fn balanced(&self) -> bool {
        !self.double_release && self.live.values().all(|n| *n == 0) && self.acquisitions == self.releases
    }
}

fn run(os: &mut FakeOs) -> Result<(), IconError> {
    let mut x = Extraction::start(true, Some("exe"))?;
    let mut steps = 0;
    loop {
        steps += 1;
        assert!(steps < 100);
        let ev = match x.next_action() {
            Action::ExtractIcon { index } => {
                assert_eq!(index, 0);
                os.acquire(os.icon);
                Event::IconExtracted { count: os.count, icon: os.icon }
            }
            Action::ReadPlanes { icon } => {
                assert_eq!(icon, os.icon);
                if let Some(p) = os.planes {
                    os.acquire(p.color);
                    os.acquire(p.mask);
                }
                Event::PlanesRead { planes: os.planes }
            }
            Action::QueryBitmap { bitmap } => {
                assert_eq!(bitmap, os.planes.unwrap().color);
                Event::BitmapQueried { record: os.record }
            }
            Action::CopyPixels { bitmap, request, buffer_len } => {
                assert_eq!(bitmap, os.planes.unwrap().color);
                assert!(request.height < 0);
                assert_eq!(request.bits_per_pixel, 32);
                let n = if os.short_copy { buffer_len - 4 } else { buffer_len };
                let pixels: Vec<u8> = (0..n).map(|i| (i % 256) as u8).collect();
                Event::PixelsCopied { scanlines: os.scanlines, pixels }
            }
            Action::Encode => {
                let raster = x.raster().unwrap();
                let mut out = Cursor::new(Vec::new());
                raster.image().buffer.write_to(&mut out, image::ImageFormat::Png).unwrap();
                if os.encode_ok {
                    os.encoded = Some(out.into_inner());
                }
                Event::Encoded { ok: os.encode_ok }
            }
            Action::Release { resource } => {
                os.release(resource.id);
                Event::Released
            }
            Action::Finish { outcome } => return outcome,
        };
        assert!(x.accepts(&ev));
        x.handle(ev);
    }
}

#[test]
fn extraction_succeeds_and_releases_everything() {
    let mut os = FakeOs::icon32();
    assert_eq!(run(&mut os), Ok(()));
    assert_eq!(os.acquisitions, 3);
    assert!(os.balanced());
    let png = os.encoded.unwrap();
    assert!(!png.is_empty());
    let decoded = image::load_from_memory(&png).unwrap();
    assert_eq!((decoded.width(), decoded.height()), (32, 32));
}

#[test]
fn repeated_extractions_have_the_same_shape() {
    let mut a = FakeOs::icon32();
    let mut b = FakeOs::icon32();
    assert_eq!(run(&mut a), Ok(()));
    assert_eq!(run(&mut b), Ok(()));
    let da = image::load_from_memory(&a.encoded.unwrap()).unwrap();
    let db = image::load_from_memory(&b.encoded.unwrap()).unwrap();
    assert_eq!((da.width(), da.height()), (db.width(), db.height()));
}

#[test]
fn inspected_geometry_matches_bitmap() {
    for (w, h) in [(1, 1), (16, 16), (32, 32), (256, 256)] {
        let mut os = FakeOs::sized(w, h);
        assert_eq!(run(&mut os), Ok(()));
        assert!(os.balanced());
        let decoded = image::load_from_memory(&os.encoded.unwrap()).unwrap();
        assert_eq!((decoded.width(), decoded.height()), (w as u32, h as u32));
    }
}

#[test]
fn zero_icons_extracted_is_os_failure() {
    let mut os = FakeOs::icon32();
    os.count = 0;
    os.icon = 0;
    assert_eq!(run(&mut os), Err(IconError::OsFailure));
    assert_eq!(os.acquisitions, 0);
    assert!(os.balanced());
}

#[test]
fn missing_icon_is_not_found() {
    let mut os = FakeOs::icon32();
    os.icon = 0;
    assert_eq!(run(&mut os), Err(IconError::NotFound));
    assert!(os.balanced());
}

#[test]
fn stray_handle_with_zero_count_is_released() {
    let mut os = FakeOs::icon32();
    os.count = 0;
    assert_eq!(run(&mut os), Err(IconError::OsFailure));
    assert_eq!(os.acquisitions, 1);
    assert!(os.balanced());
}

#[test]
fn failed_icon_info_releases_icon() {
    let mut os = FakeOs::icon32();
    os.planes = None;
    assert_eq!(run(&mut os), Err(IconError::OsFailure));
    assert_eq!(os.acquisitions, 1);
    assert!(os.balanced());
}

#[test]
fn monochrome_icon_without_color_plane_fails() {
    let mut os = FakeOs::icon32();
    os.planes = Some(IconPlanes { color: 0, mask: 303 });
    assert_eq!(run(&mut os), Err(IconError::OsFailure));
    assert_eq!(os.acquisitions, 2);
    assert!(os.balanced());
}

#[test]
fn failed_bitmap_query_releases_all() {
    let mut os = FakeOs::icon32();
    os.record = None;
    assert_eq!(run(&mut os), Err(IconError::OsFailure));
    assert!(os.balanced());
    let mut os = FakeOs::icon32();
    os.record = Some(BitmapRecord { width: 0, height: 32, bits_per_pixel: 32 });
    assert_eq!(run(&mut os), Err(IconError::OsFailure));
    assert!(os.balanced());
}

#[test]
fn zero_scanlines_is_os_failure() {
    let mut os = FakeOs::icon32();
    os.scanlines = 0;
    assert_eq!(run(&mut os), Err(IconError::OsFailure));
    assert_eq!(os.acquisitions, 3);
    assert!(os.balanced());
}

#[test]
fn short_pixel_copy_is_invalid_buffer() {
    let mut os = FakeOs::icon32();
    os.short_copy = true;
    assert_eq!(run(&mut os), Err(IconError::InvalidBuffer));
    assert!(os.balanced());
}

#[test]
fn encode_failure_releases_all() {
    let mut os = FakeOs::icon32();
    os.encode_ok = false;
    assert_eq!(run(&mut os), Err(IconError::EncodeFailure));
    assert!(os.encoded.is_none());
    assert!(os.balanced());
}

#[test]
fn session_reports_phase_and_geometry() {
    let mut x = Extraction::start(true, Some("exe")).unwrap();
    assert_eq!(x.phase(), Phase::Resolving);
    x.handle(Event::IconExtracted { count: 1, icon: 7 });
    assert_eq!(x.phase(), Phase::ReadingPlanes);
    x.handle(Event::PlanesRead { planes: Some(IconPlanes { color: 8, mask: 9 }) });
    assert_eq!(x.phase(), Phase::Inspecting);
    assert!(!x.accepts(&Event::Released));
    x.handle(Event::BitmapQueried { record: Some(BitmapRecord { width: 16, height: 8, bits_per_pixel: 32 }) });
    assert_eq!(x.phase(), Phase::Rendering);
    let g = x.geometry().unwrap();
    assert_eq!((g.width, g.height), (16, 8));
    match x.next_action() {
        Action::CopyPixels { bitmap, request, buffer_len } => {
            assert_eq!(bitmap, 8);
            assert_eq!((request.width, request.height), (16, -8));
            assert_eq!(buffer_len, 512);
        }
        other => panic!("unexpected action {:?}", other),
    }
    x.handle(Event::PixelsCopied { scanlines: 8, pixels: vec![1u8; 512] });
    assert_eq!(x.phase(), Phase::Encoding);
    x.handle(Event::Encoded { ok: true });
    assert_eq!(x.phase(), Phase::Releasing);
    let mut released = Vec::new();
    while let Action::Release { resource } = x.next_action() {
        released.push((resource.kind, resource.id));
        x.handle(Event::Released);
    }
    assert_eq!(
        released,
        vec![(ResourceKind::MaskBitmap, 9), (ResourceKind::ColorBitmap, 8), (ResourceKind::Icon, 7)]
    );
    assert_eq!(x.phase(), Phase::Finished);
    assert_eq!(x.outcome(), Ok(()));
}

#[test]
fn output_file_is_icon_png() {
    assert_eq!(output_file_name(), "icon.png");
}
