use opencv::image::{point_counts, Image};
use opencv::objdetect::{detection_result, CascadeClassifier};
use opencv::primitives::{Color, Point, Rect, RectSeq, Size};
use opencv::video::{Capture, Frames, Writer};

#[test]
fn color_channels_in_native_order() {
    assert_eq!(Color::from_rgb(1, 2, 3).channels(), [3, 2, 1, 0]);
    assert_eq!(Color::from_rgba(10, 20, 30, 40).channels(), [30, 20, 10, 40]);
    assert_eq!(Color::from_rgb(1, 2, 3), Color::from_rgba(1, 2, 3, 0));
}

#[test]
fn geometry_constructors() {
    let p = Point::new(3, -4);
    assert_eq!((p.x, p.y), (3, -4));
    let r = Rect::new(1, 2, 30, 40);
    assert_eq!((r.x, r.y, r.width, r.height), (1, 2, 30, 40));
    let s = Size::new(640, 480);
    assert_eq!((s.width, s.height), (640, 480));
}

#[test]
fn loaded_image_is_owned() {
    let img = Image::from_loaded("a.png", 0x1000, Size::new(640, 480)).unwrap();
    assert_eq!(img.raw, 0x1000);
    assert!(img.is_owned);
    assert!(img.releases_on_drop());
    assert_eq!(img.size(), Size::new(640, 480));
    assert_eq!(img.width(), 640);
    assert_eq!(img.height(), 480);
}

#[test]
fn failed_image_load_names_path() {
    let r = Image::from_loaded("missing.png", 0, Size::new(0, 0));
    assert_eq!(r.unwrap_err(), "missing.png".to_string());
}

#[test]
fn borrowed_image_is_not_released() {
    let img = Image::borrowed(0x2000, Size::new(2, 3)).unwrap();
    assert!(!img.is_owned);
    assert!(!img.releases_on_drop());
    assert!(Image::borrowed(0, Size::new(2, 3)).is_none());
    let copy = Image::owned(0x3000, Size::new(2, 3));
    assert!(copy.releases_on_drop());
}

#[test]
fn polygon_point_counts() {
    let a = Point::new(0, 0);
    let b = Point::new(1, 0);
    let c = Point::new(0, 1);
    let tri: Vec<&Point> = vec![&a, &b, &c];
    let seg: Vec<&Point> = vec![&a, &b];
    let polys: Vec<&[&Point]> = vec![&tri, &seg, &[]];
    assert_eq!(point_counts(&polys), vec![3, 2, 0]);
    assert_eq!(point_counts(&[]), Vec::<i32>::new());
}

#[test]
fn rect_seq_walks_to_the_end() {
    let mut s = RectSeq::new(0x10);
    assert_eq!(RectSeq::len_of(2), 2);
    assert_eq!(s.pending_index(2), Some(0));
    let r0 = Rect::new(1, 2, 3, 4);
    assert_eq!(s.accept(2, Some(r0.clone())), Some(r0));
    assert_eq!(s.curr, 1);
    assert_eq!(s.pending_index(2), Some(1));
    let r1 = Rect::new(5, 6, 7, 8);
    assert_eq!(s.accept(2, Some(r1.clone())), Some(r1));
    assert_eq!(s.curr, 2);
    assert_eq!(s.pending_index(2), None);
    assert_eq!(s.accept(2, Some(Rect::new(0, 0, 0, 0))), None);
    assert_eq!(s.curr, 2);
    assert_eq!(s.raw, 0x10);
}

#[test]
fn rect_seq_negative_total_is_empty() {
    let mut s = RectSeq::new(0x10);
    assert_eq!(RectSeq::len_of(-5), 0);
    assert_eq!(s.pending_index(-5), None);
    assert_eq!(s.accept(-5, Some(Rect::new(1, 1, 1, 1))), None);
    assert_eq!(s.curr, 0);
}

#[test]
fn rect_seq_missing_element_stops_without_moving() {
    let mut s = RectSeq::new(0x10);
    assert_eq!(s.accept(3, None), None);
    assert_eq!(s.curr, 0);
}

#[test]
fn detection_results() {
    let s = detection_result(0x40).unwrap();
    assert_eq!((s.raw, s.curr), (0x40, 0));
    assert_eq!(detection_result(0).unwrap_err(), "Something went wrong!".to_string());
}

#[test]
fn cascade_load_results() {
    assert_eq!(CascadeClassifier::from_loaded("face.xml", 0x50).unwrap().raw(), 0x50);
    assert_eq!(CascadeClassifier::from_loaded("face.xml", 0).unwrap_err(), "face.xml".to_string());
}

#[test]
fn capture_open_results() {
    assert_eq!(Capture::from_file_opened("clip.avi", 0x60).unwrap().raw(), 0x60);
    assert_eq!(Capture::from_file_opened("clip.avi", 0).unwrap_err(), "clip.avi".to_string());
    assert_eq!(Capture::from_camera_opened(0, 0x70).unwrap().raw(), 0x70);
}

#[test]
fn camera_error_names_index() {
    assert_eq!(
        Capture::from_camera_opened(3, 0).unwrap_err(),
        "Camera failed to properly initialize! Maybe you're using the wrong camera index (3). Use `from_camera(0)` to autodetect the camera index.".to_string()
    );
    assert_eq!(
        Capture::from_camera_opened(-12, 0).unwrap_err(),
        "Camera failed to properly initialize! Maybe you're using the wrong camera index (-12). Use `from_camera(0)` to autodetect the camera index.".to_string()
    );
}

#[test]
fn frames_borrow_their_capture() {
    let cap = Capture::from_file_opened("clip.avi", 0x60).unwrap();
    let frames = cap.frames();
    assert_eq!(frames.capture().raw(), 0x60);
    let f = Frames::frame(0x80, Size::new(4, 4)).unwrap();
    assert!(!f.releases_on_drop());
    assert!(Frames::frame(0, Size::new(4, 4)).is_none());
    assert_eq!(Frames::next_index(7), 8);
    assert_eq!(Frames::count_from_reported(12), 10);
    assert_eq!(Frames::count_from_reported(2), 0);
}

#[test]
fn writer_codes() {
    assert_eq!(Writer::fourcc_code(&['M', 'J', 'P', 'G']), 0x4750_4a4d);
    assert_eq!(Writer::fourcc_code(&['X', 'V', 'I', 'D']), 0x4449_5658);
    assert_eq!(Writer::fourcc_code(&['\u{ff}', '\0', '\0', '\u{ff}']), -16_776_961);
    assert_eq!(Writer::color_flag(true), 1);
    assert_eq!(Writer::color_flag(false), 0);
}

#[test]
fn writer_open_results() {
    assert_eq!(Writer::from_opened("out.avi", 0x90).unwrap().raw(), 0x90);
    assert_eq!(Writer::from_opened("out.avi", 0).unwrap_err(), "out.avi".to_string());
}
