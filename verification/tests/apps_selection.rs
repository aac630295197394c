use midi_hub::apps::selection::{apps_to_start, Config, Selection};
use midi_hub::apps::{spotify, youtube};
use midi_hub::apps::{App, In, Out, RecvError, SendError};
use midi_hub::image::Image;
use midi_hub::midi::devices::launchpadpro::LaunchpadProFeatures;
use midi_hub::midi::devices::DeviceFeatures;
use midi_hub::midi::Event;

/// An application that records what it receives and echoes it back.
struct Echo {
    color: [u8; 3],
    received: Vec<In>,
}

impl App for Echo {
    fn get_name(&self) -> &'static str {
        "echo"
    }

    fn get_color(&self) -> [u8; 3] {
        self.color
    }

    fn get_logo(&self) -> Image {
        Image { width: 8, height: 8, bytes: self.color.repeat(64) }
    }

    fn send(&mut self, event: In) -> Result<(), SendError> {
        self.received.push(event);
        Ok(())
    }

    fn receive(&mut self) -> Result<Out, RecvError> {
        match self.received.pop() {
            Some(In::Midi(e)) => Ok(Out::Midi(e)),
            Some(In::Server(c)) => Ok(Out::Server(c)),
            None => Err(RecvError::Empty),
        }
    }

    fn on_select(&mut self) {}
}

fn launchpad() -> DeviceFeatures {
    DeviceFeatures::LaunchpadPro(LaunchpadProFeatures::new())
}

#[test]
fn selection_lights_the_app_colors_on_instantiation() {
    let apps = vec![
        Echo { color: [0, 0, 255], received: vec![] },
        Echo { color: [0, 255, 0], received: vec![] },
    ];
    let mut selection = Selection::new(apps, launchpad(), launchpad());
    assert_eq!(selection.receive(), Ok(Out::Midi(Event::SysEx(vec![
        240, 0, 32, 41, 2, 16, 11,
        89, 0, 0, 63,
        79, 0, 63, 0,
        247,
    ]))));
    assert_eq!(selection.receive(), Err(RecvError::Empty));
}

#[test]
fn selecting_an_app_shows_its_logo_and_routes_events_to_it() {
    let apps = vec![
        Echo { color: [0, 0, 255], received: vec![] },
        Echo { color: [0, 255, 0], received: vec![] },
    ];
    let mut selection = Selection::new(apps, launchpad(), launchpad());
    let _ = selection.receive();
    // the second button of the right column selects the second application
    selection.send(In::Midi(Event::Midi([176, 79, 10, 0]))).unwrap();
    assert_eq!(selection.selected_app, 1);
    let mut frame = vec![240, 0, 32, 41, 2, 16, 15, 1];
    frame.extend([0u8, 63, 0].repeat(64));
    frame.push(247);
    assert_eq!(selection.receive(), Ok(Out::Midi(Event::SysEx(frame))));
    // other events go to the selected application
    selection.send(In::Midi(Event::Midi([144, 11, 10, 0]))).unwrap();
    assert_eq!(selection.apps[1].received.len(), 1);
    assert!(selection.apps[0].received.is_empty());
    assert_eq!(selection.receive(), Ok(Out::Midi(Event::Midi([144, 11, 10, 0]))));
    // a button without application changes nothing
    selection.send(In::Midi(Event::Midi([176, 69, 10, 0]))).unwrap();
    assert_eq!(selection.selected_app, 1);
}

#[test]
fn selection_lights_the_configured_app_colors_in_order() {
    let config = Config {
        apps: Box::new(midi_hub::apps::Config {
            forward: None,
            spotify: Some(spotify::Config {
                playlist_id: "playlist_id".to_string(),
                client_id: "client_id".to_string(),
                client_secret: "client_secret".to_string(),
                refresh_token: "refresh_token".to_string(),
            }),
            youtube: Some(youtube::Config {
                api_key: "api_key".to_string(),
                playlist_id: "playlist_id".to_string(),
            }),
            selection: None,
        }),
    };
    let apps: Vec<Echo> = apps_to_start(&config)
        .iter()
        .map(|start| Echo { color: start.get_color(), received: vec![] })
        .collect();
    assert_eq!(apps.iter().map(|app| app.color).collect::<Vec<_>>(), vec![[0, 255, 0], [255, 0, 0]]);
    let mut selection = Selection::new(apps, launchpad(), launchpad());
    // green for spotify on the first button, then red for youtube on the second
    assert_eq!(selection.receive(), Ok(Out::Midi(Event::SysEx(vec![
        240, 0, 32, 41, 2, 16, 11,
        89, 0, 63, 0,
        79, 63, 0, 0,
        247,
    ]))));
}

#[test]
fn commands_of_the_web_player_go_to_the_selected_application() {
    let apps = vec![
        Echo { color: [0, 0, 255], received: vec![] },
        Echo { color: [0, 255, 0], received: vec![] },
    ];
    let mut selection = Selection::new(apps, launchpad(), launchpad());
    let _ = selection.receive();
    selection.send(In::Server(midi_hub::server::Command::YoutubePause)).unwrap();
    assert_eq!(selection.selected_app, 0);
    assert_eq!(selection.apps[0].received.len(), 1);
    assert_eq!(selection.receive(), Ok(Out::Server(midi_hub::server::Command::YoutubePause)));
    assert_eq!(selection.receive(), Err(RecvError::Empty));
}
