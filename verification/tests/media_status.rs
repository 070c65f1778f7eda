use mxross_canvas::media::{export_status, save_export, save_png_to_pictures};

#[test]
fn saving_is_refused_off_android() {
    let r = save_png_to_pictures("canvas.png", "MxRoss", &[1, 2, 3]);
    assert_eq!(r, Err("mxross-android-media is only implemented for Android".to_string()));
}

#[test]
fn export_status_lines() {
    assert_eq!(export_status(&Ok(())), "Exported to Pictures/MxRoss/canvas.png");
    assert_eq!(export_status(&Err("disk full".to_string())), "Export failed: disk full");
}

#[test]
fn save_export_reports_the_refusal() {
    assert_eq!(
        save_export(&[0u8; 8]),
        "Export failed: mxross-android-media is only implemented for Android"
    );
}
