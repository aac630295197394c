use midi_hub::midi::devices::launchpadpro::LaunchpadProFeatures;
use midi_hub::midi::features::ColorPalette;
use midi_hub::midi::Event;

#[test]
fn color_palette_into_color_palette_index_given_incorrect_status_should_return_none() {
    let features = LaunchpadProFeatures::new();
    let event = Event::Midi([128, 3, 10, 0]);
    assert_eq!(None, features
        .into_color_palette_index(event)
        .expect("into_color_palette_index should not fail"));
}

#[test]
fn color_palette_into_color_palette_index_given_low_velocity_should_return_none() {
    let features = LaunchpadProFeatures::new();
    let event = Event::Midi([176, 3, 0, 0]);
    assert_eq!(None, features
        .into_color_palette_index(event)
        .expect("into_color_palette_index should not fail"));
}

#[test]
fn color_palette_into_color_palette_index_given_out_of_grid_value_should_return_none() {
    let features = LaunchpadProFeatures::new();
    let events = vec![
        [176, 00, 10, 0],
        [176, 09, 10, 0],
        [176, 10, 10, 0],
        [176, 11, 10, 0],
        [176, 12, 10, 0],
        [176, 13, 10, 0],
        [176, 14, 10, 0],
        [176, 15, 10, 0],
        [176, 16, 10, 0],
        [176, 17, 10, 0],
        [176, 18, 10, 0],
        [176, 19, 10, 0],
    ];

    for event in events {
        let event = Event::Midi(event);
        assert_eq!(None, features
            .into_color_palette_index(event)
            .expect("into_color_palette_index should not fail"));
    }
}

#[test]
fn color_palette_into_color_palette_index_should_correct_value() {
    let features = LaunchpadProFeatures::new();
    let actual_output = vec![1, 2, 3, 4, 5, 6, 7, 8]
        .iter()
        .map(|code| features
            .into_color_palette_index(Event::Midi([176, *code, 10, 0]))
            .expect("into_color_palette_index should not fail"))
        .collect::<Vec<Option<usize>>>();

    let expected_output = vec![0, 1, 2, 3, 4, 5, 6, 7]
        .iter()
        .map(|index| Some(*index))
        .collect::<Vec<Option<usize>>>();

    assert_eq!(expected_output, actual_output);
}

#[test]
fn color_palette_from_color_palette_when_too_many_colors_then_return_out_of_bound_error() {
    let features = LaunchpadProFeatures::new();
    // a color palette of nine items should not be supported (even if they’re all black)
    let color_palette = vec![[0, 0, 0]; 9];
    let actual_event = features.from_color_palette(color_palette);
    assert!(actual_event.is_err());
}

#[test]
fn color_palette_from_color_palette_when_valid_palette_then_divide_all_values_by_four() {
    let features = LaunchpadProFeatures::new();
    let color_palette = vec![
        [12, 24, 48],
        [96, 16, 36],
        [8, 192, 56],
    ];

    let actual_event = features.from_color_palette(color_palette).unwrap();
    assert_eq!(actual_event, Event::SysEx(vec![
            // Prefix for "bluk lighting" a set of LEDs
            240, 0, 32, 41, 2, 16, 11,
            // Identifier for the first LED
            1,
            // The Launchpad Pro only accepts 3-byte colors,
            // where each byte has a value within the [0; 63] range.
            3, 6, 12,
            // Identifier and color for the second LED
            2, 24, 4, 9,
            // Identifier and color for the third LED
            3, 2, 48, 14,
            // Suffix for LaunchpadPro SysEx commands
            247,
    ]));
}
