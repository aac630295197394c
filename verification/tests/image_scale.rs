use midi_hub::image::scale::{scale, Coordinate1D, Coordinate3D, Error};
use midi_hub::image::Image;

#[test]
fn test_coordinate_conversions() {
    let image = Image { width: 3, height: 4, bytes: Vec::with_capacity(12) };

    // Each tuple contains the expected (y, x, color) for the corresponding index.
    let bytes = vec![
        (0, 0, 0), (0, 0, 1), (0, 0, 2), (0, 1, 0), (0, 1, 1), (0, 1, 2), (0, 2, 0), (0, 2, 1), (0, 2, 2),
        (1, 0, 0), (1, 0, 1), (1, 0, 2), (1, 1, 0), (1, 1, 1), (1, 1, 2), (1, 2, 0), (1, 2, 1), (1, 2, 2),
        (2, 0, 0), (2, 0, 1), (2, 0, 2), (2, 1, 0), (2, 1, 1), (2, 1, 2), (2, 2, 0), (2, 2, 1), (2, 2, 2),
        (3, 0, 0), (3, 0, 1), (3, 0, 2), (3, 1, 0), (3, 1, 1), (3, 1, 2), (3, 2, 0), (3, 2, 1), (3, 2, 2),
    ];

    for index in 0..bytes.len() {
        let coordinate_1d = Coordinate1D { image: &image, index };
        let coordinate_3d = Coordinate3D::from(coordinate_1d);
        assert_eq!(coordinate_3d.color, bytes[index].2, "Coordinate3D for byte {} does not have the expected color.", index);
        assert_eq!(coordinate_3d.x, bytes[index].1, "Coordinate3D for byte {} does not have the expected x.", index);
        assert_eq!(coordinate_3d.y, bytes[index].0, "Coordinate3D for byte {} does not have the expected y.", index);
        assert_eq!(coordinate_1d, Coordinate1D::from(coordinate_3d), "Coordinate3D for byte {} did not convert back to the original Coordinate1D", index);
    }
}

#[test]
fn test_scale_given_bigger_width_should_return_err() {
    let image = Image { width: 100, height: 100, bytes: vec![0; 30000] };
    assert_eq!(Err(Error::InvalidScaleForImage(101, 50, 100, 100)), scale(&image, 101, 50));
    assert_eq!(Err(Error::InvalidScaleForImage(200, 100, 100, 100)), scale(&image, 200, 100));

    let image = Image { width: 50, height: 50, bytes: vec![0; 7500] };
    assert_eq!(Err(Error::InvalidScaleForImage(51, 25, 50, 50)), scale(&image, 51, 25));
    assert_eq!(Err(Error::InvalidScaleForImage(100, 50, 50, 50)), scale(&image, 100, 50));
}

#[test]
fn test_scale_given_bigger_height_should_return_err() {
    let image = Image { width: 100, height: 100, bytes: vec![0; 30000] };
    assert_eq!(Err(Error::InvalidScaleForImage(50, 101, 100, 100)), scale(&image, 50, 101));
    assert_eq!(Err(Error::InvalidScaleForImage(100, 200, 100, 100)), scale(&image, 100, 200));

    let image = Image { width: 50, height: 50, bytes: vec![0; 7500] };
    assert_eq!(Err(Error::InvalidScaleForImage(25, 51, 50, 50)), scale(&image, 25, 51));
    assert_eq!(Err(Error::InvalidScaleForImage(50, 100, 50, 50)), scale(&image, 50, 100));
}

#[test]
fn test_scale_given_empty_width_should_return_err() {
    let image = Image { width: 100, height: 100, bytes: vec![0; 30000] };
    assert_eq!(Err(Error::InvalidScaleForImage(0, 100, 100, 100)), scale(&image, 0, 100));
    assert_eq!(Err(Error::InvalidScaleForImage(0, 200, 100, 100)), scale(&image, 0, 200));

    let image = Image { width: 50, height: 50, bytes: vec![0; 7500] };
    assert_eq!(Err(Error::InvalidScaleForImage(0, 50, 50, 50)), scale(&image, 0, 50));
    assert_eq!(Err(Error::InvalidScaleForImage(0, 100, 50, 50)), scale(&image, 0, 100));
}

#[test]
fn test_scale_given_empty_height_should_return_err() {
    let image = Image { width: 100, height: 100, bytes: vec![0; 30000] };
    assert_eq!(Err(Error::InvalidScaleForImage(100, 0, 100, 100)), scale(&image, 100, 0));
    assert_eq!(Err(Error::InvalidScaleForImage(200, 0, 100, 100)), scale(&image, 200, 0));

    let image = Image { width: 50, height: 50, bytes: vec![0; 7500] };
    assert_eq!(Err(Error::InvalidScaleForImage(50, 0, 50, 50)), scale(&image, 50, 0));
    assert_eq!(Err(Error::InvalidScaleForImage(100, 0, 50, 50)), scale(&image, 100, 0));
}

#[test]
fn test_scale_given_image_with_too_many_bytes_should_return_err() {
    let image = Image { width: 100, height: 100, bytes: vec![0; 50000] };
    assert_eq!(Err(Error::InvalidImage(30000, 50000)), scale(&image, 50, 50));
}

#[test]
fn test_scale_given_image_with_too_few_bytes_should_return_err() {
    let image = Image { width: 100, height: 100, bytes: vec![0; 5000] };
    assert_eq!(Err(Error::InvalidImage(30000, 5000)), scale(&image, 50, 50));
}

#[test]
fn test_scale_given_simple_squared_image_should_return_smaller_image() {
    let image = Image { width: 4, height: 4, bytes: vec![
        255,0,0,  255,0,0,  0,255,0,  0,255,0,
        255,0,0,  255,0,0,  0,255,0,  0,255,0,
        0,0,255,  0,0,255,  99,0,99,  99,0,99,
        0,0,255,  0,0,255,  99,0,99,  99,0,99,
    ] };

    let result = scale(&image, 2, 2);
    assert_eq!(Ok(Image { width:  2, height: 2, bytes: vec![
        255,0,0,  0,255,0,
        0,0,255,  99,0,99,
    ] }), result);
}

#[test]
fn test_scale_given_simple_rectangle_image_should_return_smaller_image() {
    let image = Image { width: 6, height: 4, bytes: vec![
        255,0,0,  255,0,0,  255,0,0,  0,255,0,  0,255,0,  0,255,0,
        255,0,0,  255,0,0,  255,0,0,  0,255,0,  0,255,0,  0,255,0,
        0,0,255,  0,0,255,  0,0,255,  99,0,99,  99,0,99,  99,0,99,
        0,0,255,  0,0,255,  0,0,255,  99,0,99,  99,0,99,  99,0,99,
    ] };

    let result = scale(&image, 2, 2);
    assert_eq!(Ok(Image { width:  2, height: 2, bytes: vec![
        255,0,0,  0,255,0,
        0,0,255,  99,0,99,
    ] }), result);
}

#[test]
fn test_scale_given_complex_squared_image_should_return_image_with_averaged_pixels() {
    let image = Image { width: 4, height: 4, bytes: vec![
        100,0,0,  0,100,0,  20,0,20,  40,0,40,
        0,100,0,  100,0,0,  60,0,60,  80,0,80,
        10,10,0,  20,20,0,  0,10,20,  30,40,0,
        30,30,0,  40,40,0,  50,60,0,  0,70,80,
    ] };

    let result = scale(&image, 2, 2);
    assert_eq!(Ok(Image { width:  2, height: 2, bytes: vec![
        50,50,0,   50,0,50,
        25,25,0,  20,45,25,
    ] }), result);
}

#[test]
fn test_scale_given_indentical_size_should_return_same_image() {
    let mut image = Image { width: 100, height: 100, bytes: vec![0; 30000] };
    let mut seed: u32 = 0x2545_f491;
    for byte in &mut image.bytes {
        seed ^= seed << 13;
        seed ^= seed >> 17;
        seed ^= seed << 5;
        *byte = (seed >> 24) as u8;
    }

    let result = scale(&image, 100, 100);
    assert!(result.is_ok(), "scale did not suceed in scaling the image {:?}: {:?}", image, result);

    assert_eq!(image.width, result.as_ref().unwrap().width, "scale did not conserve the image’s width");
    assert_eq!(image.height, result.as_ref().unwrap().height, "scale did not conserve the image’s width");
    assert_eq!(image.bytes, result.as_ref().unwrap().bytes, "scale did not conserve the image’s bytes");
}
