use midi_hub::midi::devices::launchpadpro::LaunchpadProFeatures;
use midi_hub::midi::features::AppSelector;
use midi_hub::midi::Event;

#[test]
fn app_selector_into_app_index_given_incorrect_status_should_return_none() {
    let transformer = LaunchpadProFeatures::new();
    let event = Event::Midi([128, 89, 10, 0]);
    assert_eq!(None, transformer.into_app_index(event).expect("into_app_index should not fail"));
}

#[test]
fn app_selector_into_app_index_given_low_velocity_should_return_none() {
    let transformer = LaunchpadProFeatures::new();
    let event = Event::Midi([176, 89, 0, 0]);
    assert_eq!(None, transformer.into_app_index(event).expect("into_app_index should not fail"));
}

#[test]
fn app_selector_into_app_index_given_out_of_grid_value_should_return_none() {
    let transformer = LaunchpadProFeatures::new();
    let events = vec![
        [176, 08, 10, 0],
        [176, 09, 10, 0],
        [176, 18, 10, 0],
        [176, 28, 10, 0],
        [176, 38, 10, 0],
        [176, 48, 10, 0],
        [176, 58, 10, 0],
        [176, 68, 10, 0],
        [176, 78, 10, 0],
        [176, 88, 10, 0],
        [176, 98, 10, 0],
        [176, 99, 10, 0],
    ];

    for event in events {
        let event = Event::Midi(event);
        assert_eq!(None, transformer.into_app_index(event).expect("into_app_index should not fail"));
    }
}

#[test]
fn app_selector_into_app_index_should_correct_value() {
    let transformer = LaunchpadProFeatures::new();
    let actual_output = vec![19, 29, 39, 49, 59, 69, 79, 89]
        .iter()
        .map(|code| transformer
            .into_app_index(Event::Midi([176, *code, 10, 0]))
            .expect("into_app_index should not fail"))
        .collect::<Vec<Option<usize>>>();

    let expected_output = vec![7, 6, 5, 4, 3, 2, 1, 0]
        .iter()
        .map(|index| Some(*index))
        .collect::<Vec<Option<usize>>>();

    assert_eq!(expected_output, actual_output);
}

#[test]
fn from_app_colors_when_too_many_colors_then_return_out_of_bound_error() {
    let transformer = LaunchpadProFeatures::new();
    // the Launchpad Pro won’t support nine applications, even if they all use black!
    let app_colors = vec![[0, 0, 0]; 9];
    let actual_event = transformer.from_app_colors(app_colors);
    assert!(actual_event.is_err());
}

#[test]
fn from_app_colors_when_valid_apps_then_divide_all_values_by_four() {
    let transformer = LaunchpadProFeatures::new();
    let app_colors = vec![
        [12, 24, 48],
        [96, 16, 36],
        [8, 192, 56],
    ];

    let actual_event = transformer.from_app_colors(app_colors).unwrap();
    assert_eq!(actual_event, Event::SysEx(vec![
            // Prefix for "bluk lighting" a set of LEDs
            240, 0, 32, 41, 2, 16, 11,
            // Identifier for the first LED
            89,
            // The Launchpad Pro only accepts 3-byte colors,
            // where each byte has a value within the [0; 63] range.
            3, 6, 12,
            // Identifier and color for the second LED
            79, 24, 4, 9,
            // Identifier and color for the third LED
            69, 2, 48, 14,
            // Suffix for LaunchpadPro SysEx commands
            247,
    ]));
}
