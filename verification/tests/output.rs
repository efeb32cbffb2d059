use mandelbrot::color::interior_color;
use mandelbrot::color::Rgb;
use mandelbrot::frame::append_bytes;
use mandelbrot::frame::assemble_frame;
use mandelbrot::frame::assemble_row;
use mandelbrot::frame::dimensions_valid;
use mandelbrot::header::render_header;

#[test]
fn header_default_dimensions() {
    assert_eq!(render_header(1000, 1000), b"P6\n1000 1000\n255\n".to_vec());
}

#[test]
fn header_small_dimensions() {
    assert_eq!(render_header(2, 1), b"P6\n2 1\n255\n".to_vec());
}

#[test]
fn header_single_digit() {
    assert_eq!(render_header(7, 9), b"P6\n7 9\n255\n".to_vec());
}

#[test]
fn header_largest_dimensions() {
    assert_eq!(
        render_header(u32::MAX, 40),
        b"P6\n4294967295 40\n255\n".to_vec()
    );
}

#[test]
fn fast_reject_interior_is_dark_navy() {
    assert_eq!(interior_color(true), Rgb { r: 0, g: 5, b: 25 });
}

#[test]
fn exhausted_interior_is_black() {
    assert_eq!(interior_color(false), Rgb { r: 0, g: 0, b: 0 });
}

#[test]
fn rgb_new_keeps_channels() {
    let c = Rgb::new(12, 34, 56);
    assert_eq!(c, Rgb { r: 12, g: 34, b: 56 });
}

#[test]
fn row_keeps_column_order() {
    let row = vec![Rgb { r: 1, g: 2, b: 3 }, Rgb { r: 4, g: 5, b: 6 }];
    assert_eq!(assemble_row(&row), vec![1, 2, 3, 4, 5, 6]);
}

#[test]
fn empty_row_has_no_bytes() {
    let row: Vec<Rgb> = Vec::new();
    assert_eq!(assemble_row(&row), Vec::<u8>::new());
}

#[test]
fn frame_keeps_row_order() {
    let rows = vec![
        vec![Rgb { r: 1, g: 2, b: 3 }, Rgb { r: 4, g: 5, b: 6 }],
        vec![Rgb { r: 7, g: 8, b: 9 }, Rgb { r: 10, g: 11, b: 12 }],
    ];
    assert_eq!(
        assemble_frame(&rows),
        vec![1, 2, 3, 4, 5, 6, 7, 8, 9, 10, 11, 12]
    );
}

#[test]
fn frame_body_size_is_three_per_pixel() {
    let width = 3usize;
    let height = 2usize;
    let rows = vec![vec![Rgb { r: 0, g: 0, b: 0 }; width]; height];
    assert_eq!(assemble_frame(&rows).len(), width * height * 3);
}

#[test]
fn frame_assembly_is_deterministic() {
    let rows = vec![
        vec![Rgb { r: 200, g: 100, b: 50 }, Rgb { r: 0, g: 5, b: 25 }],
        vec![Rgb { r: 9, g: 8, b: 7 }, Rgb { r: 255, g: 255, b: 255 }],
    ];
    assert_eq!(assemble_frame(&rows), assemble_frame(&rows));
}

#[test]
fn append_keeps_both_in_order() {
    let mut dst = vec![1u8, 2];
    let src = vec![3u8, 4, 5];
    append_bytes(&mut dst, &src);
    assert_eq!(dst, vec![1, 2, 3, 4, 5]);
}

#[test]
fn zero_width_is_rejected() {
    assert!(!dimensions_valid(0, 1000, 100));
}

#[test]
fn zero_height_is_rejected() {
    assert!(!dimensions_valid(1000, 0, 100));
}

#[test]
fn zero_iteration_budget_is_rejected() {
    assert!(!dimensions_valid(1000, 1000, 0));
}

#[test]
fn default_configuration_is_accepted() {
    assert!(dimensions_valid(1000, 1000, 100));
}
