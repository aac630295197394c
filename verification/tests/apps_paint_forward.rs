use midi_hub::apps::forward::Forward;
use midi_hub::apps::paint::{self, Paint};
use midi_hub::apps::{forward, App, In, Out, RecvError};
use midi_hub::midi::devices::default::DefaultFeatures;
use midi_hub::midi::devices::launchpadpro::LaunchpadProFeatures;
use midi_hub::midi::devices::DeviceFeatures;
use midi_hub::midi::Event;
use midi_hub::server::Command;

fn launchpad() -> DeviceFeatures {
    DeviceFeatures::LaunchpadPro(LaunchpadProFeatures::new())
}

#[test]
fn forward_emits_midi_events_in_order_and_drops_commands() {
    let mut app = Forward::new(forward::Config {});
    assert_eq!(app.receive(), Err(RecvError::Empty));
    app.send(In::Midi(Event::Midi([144, 1, 2, 0]))).unwrap();
    app.send(In::Server(Command::YoutubePause)).unwrap();
    app.send(In::Midi(Event::Midi([128, 1, 0, 0]))).unwrap();
    assert_eq!(app.receive(), Ok(Out::Midi(Event::Midi([144, 1, 2, 0]))));
    assert_eq!(app.receive(), Ok(Out::Midi(Event::Midi([128, 1, 0, 0]))));
    assert_eq!(app.receive(), Err(RecvError::Empty));
}

#[test]
fn paint_starts_with_a_black_image_of_the_size_of_the_grid() {
    let app = Paint::new(paint::Config {}, launchpad(), launchpad());
    let logo = app.get_logo();
    assert_eq!((logo.width, logo.height), (8, 8));
    assert_eq!(logo.bytes, vec![0; 192]);
    let app = Paint::new(paint::Config {}, DeviceFeatures::Default(DefaultFeatures::new()), launchpad());
    let logo = app.get_logo();
    assert_eq!((logo.width, logo.height), (0, 0));
    assert!(logo.bytes.is_empty());
}

#[test]
fn paint_renders_the_color_palette_on_select() {
    let mut app = Paint::new(paint::Config {}, launchpad(), launchpad());
    app.on_select();
    assert_eq!(app.receive(), Ok(Out::Midi(Event::SysEx(vec![
        240, 0, 32, 41, 2, 16, 11,
        1, 0, 0, 0,
        2, 0, 0, 63,
        3, 0, 63, 0,
        4, 0, 63, 63,
        5, 63, 0, 0,
        6, 63, 0, 63,
        7, 63, 63, 0,
        8, 63, 63, 63,
        247,
    ]))));
    assert_eq!(app.receive(), Err(RecvError::Empty));
}

#[test]
fn paint_draws_a_pixel_with_the_selected_color() {
    let mut app = Paint::new(paint::Config {}, launchpad(), launchpad());
    // the fifth button of the bottom row selects red
    app.send(In::Midi(Event::Midi([176, 5, 10, 0]))).unwrap();
    assert_eq!(app.receive(), Err(RecvError::Empty));
    // the pad on the top-left corner
    app.send(In::Midi(Event::Midi([144, 81, 10, 0]))).unwrap();
    let logo = app.get_logo();
    let mut expected = vec![0; 192];
    expected[0] = 255;
    assert_eq!(logo.bytes, expected);
    // the image is rendered with its top row on the top row of pads
    let mut frame = vec![240, 0, 32, 41, 2, 16, 15, 1];
    let mut pads = vec![0; 192];
    pads[7 * 24] = 63;
    frame.extend(pads);
    frame.push(247);
    assert_eq!(app.receive(), Ok(Out::Midi(Event::SysEx(frame))));
}

#[test]
fn paint_ignores_commands_and_out_of_palette_buttons() {
    let mut app = Paint::new(paint::Config {}, launchpad(), launchpad());
    app.send(In::Server(Command::SpotifyPause)).unwrap();
    app.select_color(8);
    app.send(In::Midi(Event::Midi([144, 11, 10, 0]))).unwrap();
    // still black
    assert_eq!(app.get_logo().bytes, vec![0; 192]);
}

#[test]
fn painting_the_same_pad_twice_paints_it_once() {
    let mut app = Paint::new(paint::Config {}, launchpad(), launchpad());
    app.send(In::Midi(Event::Midi([176, 8, 10, 0]))).unwrap();
    app.send(In::Midi(Event::Midi([144, 45, 10, 0]))).unwrap();
    let once = app.get_logo().bytes;
    app.send(In::Midi(Event::Midi([144, 45, 10, 0]))).unwrap();
    assert_eq!(app.get_logo().bytes, once);
    // the pad of code 45 is at (4, 4): row 4 from the top, white
    let pos = 4 * 24 + 4 * 3;
    assert_eq!(once[pos..pos + 3], [255, 255, 255]);
    assert_eq!(once.iter().filter(|b| **b != 0).count(), 3);
}

#[test]
fn forward_keeps_the_order_of_many_midi_events() {
    let mut app = Forward::new(forward::Config {});
    let mut expected = vec![];
    for k in 0..20u8 {
        if k % 3 == 0 {
            app.send(In::Server(Command::SpotifyPause)).unwrap();
        } else {
            app.send(In::Midi(Event::Midi([144, k, 100, 0]))).unwrap();
            expected.push(Out::Midi(Event::Midi([144, k, 100, 0])));
        }
    }
    let mut received = vec![];
    while let Ok(out) = app.receive() {
        received.push(out);
    }
    assert_eq!(received, expected);
    assert_eq!(app.receive(), Err(RecvError::Empty));
}

#[test]
fn paint_keeps_a_whole_image_through_its_steps() {
    let mut app = Paint::new(paint::Config {}, launchpad(), launchpad());
    app.send(In::Midi(Event::Midi([176, 2, 10, 0]))).unwrap();
    app.send(In::Midi(Event::Midi([144, 11, 10, 0]))).unwrap();
    app.send(In::Midi(Event::Midi([144, 88, 10, 0]))).unwrap();
    let logo = app.get_logo();
    assert_eq!((logo.width, logo.height, logo.bytes.len()), (8, 8, 192));
}
