use raytracing::png::Image;

#[test]
fn new_image_is_black() {
    let img = Image::new(4, 3);
    assert_eq!(img.size, (4, 3));
    assert_eq!(img.buffer.len(), 36);
    assert!(img.buffer.iter().all(|b| *b == 0));
}

#[test]
fn empty_image_has_no_bytes() {
    let img = Image::new(0, 5);
    assert_eq!(img.buffer.len(), 0);
}

#[test]
fn write_sets_one_pixel_row_major() {
    let mut img = Image::new(2, 2);
    img.write((1, 1), (10, 20, 30));
    assert_eq!(img.buffer, vec![0, 0, 0, 0, 0, 0, 0, 0, 0, 10, 20, 30]);
    img.write((1, 0), (1, 2, 3));
    assert_eq!(&img.buffer[3..6], &[1, 2, 3]);
    assert_eq!(&img.buffer[9..12], &[10, 20, 30]);
}

#[test]
fn write_overwrites_previous_color() {
    let mut img = Image::new(3, 1);
    img.write((2, 0), (255, 255, 255));
    img.write((2, 0), (7, 8, 9));
    assert_eq!(img.buffer, vec![0, 0, 0, 0, 0, 0, 7, 8, 9]);
}
