use wallcraft::apply::{artifact_file_name, ApplyRun, WallpaperStatus};
use wallcraft::crop::{crop_rect, output_size};
use wallcraft::geometry::{compute_bounds, CropRect, ScreenInfo, TotalBounds};
use wallcraft::render::{render_for_screen, RenderError};

fn screen(id: &str, x: i32, y: i32, width: u32, height: u32, scale_permille: u32) -> ScreenInfo {
    ScreenInfo {
        id: id.to_string(),
        name: format!("Screen {}", id),
        x,
        y,
        width,
        height,
        scale_permille,
    }
}

fn png_bytes(width: u32, height: u32) -> Vec<u8> {
    let img = image::DynamicImage::ImageRgb8(image::RgbImage::from_fn(width, height, |x, y| {
        image::Rgb([(x % 256) as u8, (y % 256) as u8, 128])
    }));
    let mut buf: Vec<u8> = Vec::new();
    img.write_to(&mut std::io::Cursor::new(&mut buf), image::ImageFormat::Png)
        .unwrap();
    buf
}

#[test]
fn bounds_of_one_screen() {
    let b = compute_bounds(&vec![screen("0", 0, 0, 1920, 1080, 1000)]);
    assert_eq!(
        b,
        TotalBounds { min_x: 0, min_y: 0, total_width: 1920, total_height: 1080 }
    );
}

#[test]
fn bounds_of_two_screens_side_by_side() {
    let b = compute_bounds(&vec![
        screen("0", 0, 0, 1920, 1080, 1000),
        screen("1", 1920, 0, 2560, 1440, 1000),
    ]);
    assert_eq!(
        b,
        TotalBounds { min_x: 0, min_y: 0, total_width: 4480, total_height: 1440 }
    );
}

#[test]
fn bounds_with_negative_origins() {
    let b = compute_bounds(&vec![
        screen("0", 0, 0, 1920, 1080, 2000),
        screen("1", -1280, -200, 1280, 1024, 1000),
        screen("2", 1920, 300, 1024, 768, 1000),
    ]);
    assert_eq!(
        b,
        TotalBounds { min_x: -1280, min_y: -200, total_width: 4224, total_height: 1280 }
    );
}

#[test]
fn matching_aspect_keeps_whole_image() {
    let s = screen("0", 0, 0, 1920, 1080, 1000);
    let b = compute_bounds(&vec![s.clone()]);
    assert_eq!(
        crop_rect(&s, &b, 3840, 2160),
        CropRect { x: 0, y: 0, width: 3840, height: 2160 }
    );
}

#[test]
fn adjacent_screens_meet_on_wide_image() {
    let a = screen("0", 0, 0, 1920, 1080, 1000);
    let c = screen("1", 1920, 0, 1920, 1080, 1000);
    let b = compute_bounds(&vec![a.clone(), c.clone()]);
    let ra = crop_rect(&a, &b, 4000, 1000);
    let rc = crop_rect(&c, &b, 4000, 1000);
    assert_eq!(ra, CropRect { x: 0, y: 0, width: 2000, height: 1000 });
    assert_eq!(rc, CropRect { x: 2000, y: 0, width: 2000, height: 1000 });
    assert_eq!(rc.x, ra.x + ra.width);
}

#[test]
fn adjacent_screens_meet_on_tall_image() {
    let a = screen("0", 0, 0, 1920, 1080, 2000);
    let c = screen("1", 1920, 0, 1920, 1080, 2000);
    let b = compute_bounds(&vec![a.clone(), c.clone()]);
    let ra = crop_rect(&a, &b, 3000, 2000);
    let rc = crop_rect(&c, &b, 3000, 2000);
    assert_eq!(ra, CropRect { x: 0, y: 0, width: 1500, height: 2000 });
    assert_eq!(rc, CropRect { x: 1500, y: 0, width: 1500, height: 2000 });
    assert_eq!(rc.x, ra.x + ra.width);
}

#[test]
fn screen_off_top_left_is_clipped_from_clamped_origin() {
    let left = screen("0", -1280, -200, 1280, 1024, 1000);
    let main = screen("1", 0, 0, 1920, 1080, 1000);
    let b = compute_bounds(&vec![left.clone(), main.clone()]);
    assert_eq!(
        crop_rect(&left, &b, 4000, 3000),
        CropRect { x: 0, y: 0, width: 1250, height: 2400 }
    );
    assert_eq!(
        crop_rect(&main, &b, 4000, 3000),
        CropRect { x: 1250, y: 469, width: 2750, height: 2531 }
    );
}

#[test]
fn negative_half_offsets_round_away_from_zero() {
    let left = screen("0", 0, 0, 1, 1, 1000);
    let right = screen("1", 1, 0, 1, 1, 1000);
    let b = compute_bounds(&vec![left.clone(), right.clone()]);
    assert_eq!(b, TotalBounds { min_x: 0, min_y: 0, total_width: 2, total_height: 1 });
    let rl = crop_rect(&left, &b, 3, 2);
    let rr = crop_rect(&right, &b, 3, 2);
    assert_eq!(rl, CropRect { x: 0, y: 0, width: 1, height: 2 });
    assert_eq!(rr, CropRect { x: 1, y: 0, width: 2, height: 2 });
    assert_eq!(rr.x, rl.x + rl.width);
}

#[test]
fn screen_partly_left_of_bounds_is_cut_at_image_edge() {
    let s = screen("0", -50, 0, 1920, 1080, 1000);
    let b = TotalBounds { min_x: 0, min_y: 0, total_width: 1920, total_height: 1080 };
    assert_eq!(crop_rect(&s, &b, 1920, 1080), CropRect { x: 0, y: 0, width: 1870, height: 1080 });
}

#[test]
fn pathological_screens_stay_inside_image() {
    let b = TotalBounds { min_x: 0, min_y: 0, total_width: 1920, total_height: 1080 };
    let far_left = screen("0", -100000, -5000, 10, 10, 1000);
    assert_eq!(crop_rect(&far_left, &b, 1920, 1080), CropRect { x: 0, y: 0, width: 1, height: 1 });
    let far_right = screen("1", 5000000, 5000000, 10, 10, 1000);
    assert_eq!(
        crop_rect(&far_right, &b, 1920, 1080),
        CropRect { x: 1919, y: 1079, width: 1, height: 1 }
    );
    let empty = screen("2", 0, 0, 0, 0, 1000);
    let r = crop_rect(&empty, &TotalBounds { min_x: 0, min_y: 0, total_width: 0, total_height: 0 }, 640, 480);
    assert!(r.width >= 1 && r.height >= 1);
    assert!(r.x + r.width <= 640 && r.y + r.height <= 480);
}

#[test]
fn output_size_is_physical() {
    assert_eq!(output_size(&screen("0", 0, 0, 1920, 1080, 2000)), (3840, 2160));
    assert_eq!(output_size(&screen("0", 0, 0, 1920, 1080, 1250)), (2400, 1350));
    assert_eq!(output_size(&screen("0", 0, 0, 1366, 768, 1500)).0, 2049);
    assert_eq!(output_size(&screen("0", 0, 0, 0, 0, 1000)), (1, 1));
}

#[test]
fn render_crops_and_resizes() {
    let bytes = png_bytes(40, 20);
    let s = screen("0", 0, 0, 20, 10, 2000);
    let b = compute_bounds(&vec![s.clone()]);
    let out = match render_for_screen(&bytes, &s, &b) {
        Ok(w) => w,
        Err(e) => panic!("render failed: {}", e.message()),
    };
    assert_eq!(out.crop, CropRect { x: 0, y: 0, width: 40, height: 20 });
    assert_eq!((out.width, out.height), (40, 20));
    assert_eq!(&out.jpeg[0..2], &[0xFF, 0xD8]);
    assert_eq!(out.crop, CropRect { x: 0, y: 0, width: 40, height: 20 });
    let decoded = image::load_from_memory(&out.jpeg).unwrap();
    assert_eq!((decoded.width(), decoded.height()), (40, 20));
}

#[test]
fn render_of_half_desktop_uses_half_image() {
    let bytes = png_bytes(64, 16);
    let a = screen("0", 0, 0, 16, 8, 1000);
    let c = screen("1", 16, 0, 16, 8, 1000);
    let b = compute_bounds(&vec![a.clone(), c.clone()]);
    let out = render_for_screen(&bytes, &c, &b).ok().unwrap();
    assert_eq!(out.crop, CropRect { x: 32, y: 0, width: 32, height: 16 });
    let decoded = image::load_from_memory(&out.jpeg).unwrap();
    assert_eq!((decoded.width(), decoded.height()), (16, 8));
}

#[test]
fn render_rejects_undecodable_bytes() {
    let s = screen("0", 0, 0, 20, 10, 1000);
    let b = compute_bounds(&vec![s.clone()]);
    match render_for_screen(&vec![1, 2, 3, 4], &s, &b) {
        Err(RenderError::Decode(m)) => assert!(!m.is_empty()),
        _ => panic!("expected a decode error"),
    }
}

#[test]
fn render_refuses_sizes_beyond_jpeg_limit() {
    let bytes = png_bytes(8, 4);
    let s = screen("0", 0, 0, 40000, 1, 2000);
    let b = compute_bounds(&vec![s.clone()]);
    match render_for_screen(&bytes, &s, &b) {
        Err(RenderError::Encode(m)) => assert!(m.contains("65535")),
        _ => panic!("expected an encode error"),
    }
}

#[test]
fn run_without_screens_fails() {
    match ApplyRun::start(&vec![]) {
        Err(m) => assert_eq!(m, "No screens detected"),
        Ok(_) => panic!("expected an error"),
    }
}

#[test]
fn failed_download_marks_every_screen() {
    let screens = vec![
        screen("0", 0, 0, 1920, 1080, 1000),
        screen("1", 1920, 0, 1920, 1080, 1000),
    ];
    let run = ApplyRun::start(&screens).ok().unwrap();
    assert_eq!(run.downloading(), vec![WallpaperStatus::Downloading, WallpaperStatus::Downloading]);
    let (st, ok) = run.download_failed("builder error: relative URL without a base");
    assert!(!ok);
    assert_eq!(st.len(), 2);
    for s in &st {
        assert_eq!(s.label(), "error");
        let m = s.error_message().unwrap();
        assert!(m.contains("Download failed"));
        assert_eq!(m, "Download failed: builder error: relative URL without a base");
    }
    assert!(run.artifacts.is_empty());
}

#[test]
fn failed_screen_does_not_stop_the_others() {
    let screens = vec![
        screen("0", 0, 0, 1920, 1080, 1000),
        screen("1", 1920, 0, 0, 0, 1000),
        screen("2", 1920, 0, 1920, 1080, 1000),
    ];
    let mut run = ApplyRun::start(&screens).ok().unwrap();
    assert_eq!(run.record_render(Ok("/w/wallpaper_0.jpg".to_string())), None);
    assert_eq!(
        run.record_render(Err("zero-size screen".to_string())),
        Some(WallpaperStatus::Error("zero-size screen".to_string()))
    );
    assert_eq!(run.record_render(Ok("/w/wallpaper_2.jpg".to_string())), None);
    assert_eq!(
        run.applying(),
        vec![Some(WallpaperStatus::Applying), None, Some(WallpaperStatus::Applying)]
    );
    let (st, ok) = run.finish(&Ok(()));
    assert_eq!(st, vec![Some(WallpaperStatus::Success), None, Some(WallpaperStatus::Success)]);
    assert!(!ok);
}

#[test]
fn desktop_failure_marks_screens_with_files() {
    let screens = vec![screen("0", 0, 0, 1920, 1080, 1000), screen("1", 1920, 0, 1920, 1080, 1000)];
    let mut run = ApplyRun::start(&screens).ok().unwrap();
    run.record_render(Ok("/w/wallpaper_0.jpg".to_string()));
    run.record_render(Ok("/w/wallpaper_1.jpg".to_string()));
    let (st, ok) = run.finish(&Err("setDesktopImageURL failed for screen 1".to_string()));
    let e = Some(WallpaperStatus::Error("setDesktopImageURL failed for screen 1".to_string()));
    assert_eq!(st, vec![e.clone(), e]);
    assert!(!ok);
    let (st, ok) = run.finish(&Ok(()));
    assert_eq!(st, vec![Some(WallpaperStatus::Success), Some(WallpaperStatus::Success)]);
    assert!(ok);
}

#[test]
fn status_labels() {
    assert_eq!(WallpaperStatus::Downloading.label(), "downloading");
    assert_eq!(WallpaperStatus::Cropping.label(), "cropping");
    assert_eq!(WallpaperStatus::Applying.label(), "applying");
    assert_eq!(WallpaperStatus::Success.label(), "success");
    assert_eq!(WallpaperStatus::Success.error_message(), None);
}

#[test]
fn artifact_name_is_keyed_by_screen_id() {
    assert_eq!(artifact_file_name("0"), "wallpaper_0.jpg");
    assert_eq!(artifact_file_name("12"), "wallpaper_12.jpg");
    assert_eq!(artifact_file_name("1"), artifact_file_name("1"));
    assert_ne!(artifact_file_name("1"), artifact_file_name("11"));
}
