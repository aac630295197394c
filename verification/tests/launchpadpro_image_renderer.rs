use midi_hub::image::Image;
use midi_hub::midi::devices::launchpadpro::LaunchpadProFeatures;
use midi_hub::midi::features::ImageRenderer;
use midi_hub::midi::Event;

#[test]
fn image_renderer_test_reverse_rows() {
    let features = LaunchpadProFeatures::new();
    let input = vec![
        0,0,0,0,0,0,0,0,0,0,0,0,0,0,0,0,0,0,0,0,0,0,0,0,
        1,1,1,1,1,1,1,1,1,1,1,1,1,1,1,1,1,1,1,1,1,1,1,1,
        2,2,2,2,2,2,2,2,2,2,2,2,2,2,2,2,2,2,2,2,2,2,2,2,
        3,3,3,3,3,3,3,3,3,3,3,3,3,3,3,3,3,3,3,3,3,3,3,3,
        4,4,4,4,4,4,4,4,4,4,4,4,4,4,4,4,4,4,4,4,4,4,4,4,
        5,5,5,5,5,5,5,5,5,5,5,5,5,5,5,5,5,5,5,5,5,5,5,5,
        6,6,6,6,6,6,6,6,6,6,6,6,6,6,6,6,6,6,6,6,6,6,6,6,
        7,7,7,7,7,7,7,7,7,7,7,7,7,7,7,7,7,7,7,7,7,7,7,7,
    ];

    let actual_output = features.reverse_rows(input).expect("Test input is expected to be valid");
    assert_eq!(actual_output, vec![
        7,7,7,7,7,7,7,7,7,7,7,7,7,7,7,7,7,7,7,7,7,7,7,7,
        6,6,6,6,6,6,6,6,6,6,6,6,6,6,6,6,6,6,6,6,6,6,6,6,
        5,5,5,5,5,5,5,5,5,5,5,5,5,5,5,5,5,5,5,5,5,5,5,5,
        4,4,4,4,4,4,4,4,4,4,4,4,4,4,4,4,4,4,4,4,4,4,4,4,
        3,3,3,3,3,3,3,3,3,3,3,3,3,3,3,3,3,3,3,3,3,3,3,3,
        2,2,2,2,2,2,2,2,2,2,2,2,2,2,2,2,2,2,2,2,2,2,2,2,
        1,1,1,1,1,1,1,1,1,1,1,1,1,1,1,1,1,1,1,1,1,1,1,1,
        0,0,0,0,0,0,0,0,0,0,0,0,0,0,0,0,0,0,0,0,0,0,0,0,
    ]);
}

#[test]
fn test_from_image_should_reverse_rows_and_divide_color_values_by_four() {
    let features = LaunchpadProFeatures::new();

    // This image will be scaled to fit on a 8x8 grid
    let image = Image { width: 16, height: 16, bytes: vec![
        Vec::from([000; 16 * 3]),
        Vec::from([000; 16 * 3]),
        Vec::from([032; 16 * 3]),
        Vec::from([032; 16 * 3]),
        Vec::from([064; 16 * 3]),
        Vec::from([064; 16 * 3]),
        Vec::from([096; 16 * 3]),
        Vec::from([096; 16 * 3]),
        Vec::from([128; 16 * 3]),
        Vec::from([128; 16 * 3]),
        Vec::from([160; 16 * 3]),
        Vec::from([160; 16 * 3]),
        Vec::from([192; 16 * 3]),
        Vec::from([192; 16 * 3]),
        Vec::from([224; 16 * 3]),
        Vec::from([224; 16 * 3]),
    ].concat() };

    let event = features.from_image(image).unwrap();
    assert_eq!(event, Event::SysEx(vec![
        // Launchpad Pro prefix for lighting pixels
        Vec::from([240, 0, 32, 41, 2, 16, 15, 1]),
        // Bottom row should be light
        Vec::from([56; 8 * 3]),
        // And rows should get darker and darker...
        Vec::from([48; 8 * 3]),
        Vec::from([40; 8 * 3]),
        Vec::from([32; 8 * 3]),
        Vec::from([24; 8 * 3]),
        Vec::from([16; 8 * 3]),
        Vec::from([08; 8 * 3]),
        // And the top one should be black
        Vec::from([00; 8 * 3]),
        // Launchpad Pro suffix at the end of SysEx events
        Vec::from([247]),
    ].concat()));
}

#[test]
fn reversing_the_rows_twice_gives_the_picture_back() {
    let features = LaunchpadProFeatures::new();
    let input: Vec<u8> = (0..192u32).map(|i| (i * 7 % 256) as u8).collect();
    let once = features.reverse_rows(input.clone()).unwrap();
    assert_ne!(once, input);
    assert_eq!(once[0..24], input[168..192]);
    assert_eq!(once[3 * (2 * 8 + 5) + 1], input[3 * (5 * 8 + 5) + 1]);
    let twice = features.reverse_rows(once).unwrap();
    assert_eq!(twice, input);
}
