use midi_hub::apps::{forward, AppStart, Config as AppsConfig, RecvError};
use midi_hub::cli::{get_command, Command as CliCommand};
use midi_hub::midi::devices::config::{DeviceConfig, DeviceType};
use midi_hub::midi::devices::Devices;
use midi_hub::midi::Error;
use midi_hub::router::{cycle_execution, keep_polling, pause_after, resolve_links, server_command, LinkError};
use midi_hub::server::Command;

fn devices() -> Devices {
    Devices::from(&vec![
        ("pad".to_string(), DeviceConfig { name: "Launchpad Pro MK2".to_string(), device_type: DeviceType::LaunchpadPro }),
        ("keys".to_string(), DeviceConfig { name: "Keystation".to_string(), device_type: DeviceType::Default }),
    ])
}

fn apps() -> AppsConfig {
    AppsConfig { forward: Some(forward::Config {}), spotify: None, youtube: None, selection: None }
}

fn link(app: &str, input: &str, output: &str) -> (String, (String, String)) {
    (app.to_string(), (input.to_string(), output.to_string()))
}

#[test]
fn links_start_apps_with_their_devices() {
    let links = resolve_links(&devices(), &apps(), &vec![link("forward", "keys", "pad")]).unwrap();
    assert_eq!(links.len(), 1);
    assert!(matches!(links[0].app, AppStart::Forward(_)));
    assert_eq!(links[0].input_id, "keys");
    assert_eq!(links[0].output_id, "pad");
}

#[test]
fn links_report_the_first_missing_piece() {
    assert_eq!(
        resolve_links(&devices(), &apps(), &vec![link("forward", "nope", "pad")]).err(),
        Some(LinkError::InputNotConfigured { input: "nope".to_string(), app: "forward".to_string() })
    );
    assert_eq!(
        resolve_links(&devices(), &apps(), &vec![link("forward", "keys", "nope")]).err(),
        Some(LinkError::OutputNotConfigured { output: "nope".to_string(), app: "forward".to_string() })
    );
    assert_eq!(
        resolve_links(&devices(), &apps(), &vec![link("forward", "keys", "pad"), link("spotify", "keys", "pad")]).err(),
        Some(LinkError::AppNotConfigured { app: "spotify".to_string() })
    );
}

#[test]
fn a_cycle_is_fine_when_one_link_reaches_both_devices() {
    assert_eq!(cycle_execution(&vec![]), Err(Error::DeviceNotFound));
    assert_eq!(cycle_execution(&vec![(Ok(()), Ok(())), (Err(Error::ReadError), Ok(()))]), Ok(()));
    assert_eq!(cycle_execution(&vec![(Err(Error::PortInitializationError), Ok(())), (Ok(()), Err(Error::DeviceNotFound))]), Err(Error::DeviceNotFound));
    assert_eq!(cycle_execution(&vec![(Ok(()), Err(Error::WriteError)), (Err(Error::ReadError), Err(Error::WriteError))]), Err(Error::ReadError));
}

#[test]
fn polling_goes_on_while_fine_and_recent() {
    assert!(keep_polling(false, &Ok(()), 9_999));
    assert!(!keep_polling(false, &Ok(()), 10_000));
    assert!(!keep_polling(true, &Ok(()), 0));
    assert!(!keep_polling(false, &Err(Error::DeviceNotFound), 0));
    assert_eq!(pause_after(&Ok(())), 10);
    assert_eq!(pause_after(&Err(Error::DeviceNotFound)), 10_000);
    assert_eq!(server_command(Ok(Command::YoutubePause)), Some(Command::YoutubePause));
    assert_eq!(server_command(Err(RecvError::Disconnected)), None);
}

#[test]
fn the_command_line_takes_init_or_run() {
    let args = |a: &[&str]| a.iter().map(|s| s.to_string()).collect::<Vec<String>>();
    assert_eq!(get_command(&args(&["midi-hub", "init"])), Ok(CliCommand::INIT));
    assert_eq!(get_command(&args(&["midi-hub", "run"])), Ok(CliCommand::RUN));
    assert_eq!(get_command(&args(&["midi-hub"])), Err("Usage: ./midi-hub [init|run]".to_string()));
    assert_eq!(get_command(&args(&["midi-hub", "run", "now"])), Err("Usage: ./midi-hub [init|run]".to_string()));
    assert_eq!(get_command(&args(&["midi-hub", "walk"])), Err("Usage: ./midi-hub [init|run]".to_string()));
}

#[test]
fn devices_are_found_by_identifier() {
    let devices = devices();
    let pad = devices.get("pad").unwrap();
    assert_eq!(pad.name, "Launchpad Pro MK2");
    assert_eq!(pad.device_type, DeviceType::LaunchpadPro);
    assert!(devices.get("Keystation").is_none());
    assert_eq!(devices.get("keys").unwrap().device_type, DeviceType::Default);
}
