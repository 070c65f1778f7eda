use mxross_canvas::pixels::{
    canvas_dimension, cube_indices, fits_canvas, padded_bytes_per_row, quad_indices, unpad_rows,
};
use mxross_canvas::text::push_decimal;
use mxross_canvas::{NoOpHook, Timer};

#[test]
fn cube_index_list() {
    let idx = cube_indices();
    assert_eq!(idx.len(), 36);
    assert_eq!(&idx[..12], &[0, 1, 2, 0, 2, 3, 4, 5, 6, 4, 6, 7]);
    assert_eq!(&idx[30..], &[20, 21, 22, 20, 22, 23]);
}

#[test]
fn quad_indices_wrap_at_sixteen_bits() {
    assert!(quad_indices(0).is_empty());
    let idx = quad_indices(16385);
    assert_eq!(&idx[6 * 16383..6 * 16384], &[65532, 65533, 65534, 65532, 65534, 65535]);
    assert_eq!(&idx[6 * 16384..], &[0, 1, 2, 0, 2, 3]);
}

#[test]
fn padded_rows() {
    assert_eq!(padded_bytes_per_row(64, 256), 256);
    assert_eq!(padded_bytes_per_row(65, 256), 512);
    assert_eq!(padded_bytes_per_row(1024, 256), 4096);
    assert_eq!(padded_bytes_per_row(0, 256), 0);
}

#[test]
fn unpadding_keeps_pixel_bytes_only() {
    // 1 pixel wide, 3 rows, rows padded to 8 bytes.
    let mapped: Vec<u8> = (0..24).collect();
    assert_eq!(unpad_rows(&mapped, 1, 3, 8), vec![0, 1, 2, 3, 8, 9, 10, 11, 16, 17, 18, 19]);
    assert_eq!(unpad_rows(&mapped, 2, 3, 8), mapped);
}

#[test]
fn canvas_fit_and_dimension() {
    assert!(fits_canvas(2, 3, 24));
    assert!(!fits_canvas(2, 3, 23));
    assert_eq!(canvas_dimension(10, 8192), 64);
    assert_eq!(canvas_dimension(1920, 8192), 1920);
    assert_eq!(canvas_dimension(10000, 8192), 8192);
}

#[test]
fn decimal_text() {
    let mut s = String::from("n=");
    push_decimal(&mut s, 0);
    assert_eq!(s, "n=0");
    let mut s = String::new();
    push_decimal(&mut s, 18446744073709551615);
    assert_eq!(s, "18446744073709551615");
}

#[test]
fn timer_runs_forward() {
    let t = Timer::new();
    let a = t.elapsed();
    let b = t.elapsed();
    assert!(b >= a);
    let _hook = NoOpHook;
}
