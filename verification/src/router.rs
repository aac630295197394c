//! The router: which application is linked to which devices, and how a cycle of polling goes.
use vstd::prelude::*;

use crate::apps;
use crate::apps::AppStart;
use crate::midi::devices::{config, describes, DeviceFeatures, Devices};
use crate::midi::Error;
use crate::server::Command;
use crate::apps::RecvError;

verus! {

/// How long, in milliseconds, a cycle polls the devices before they are looked up again.
pub const MIDI_DEVICE_POLL_INTERVAL_MS: u64 = 10000;

/// How long, in milliseconds, the router waits between two polls of the devices.
pub const MIDI_EVENT_POLL_INTERVAL_MS: u64 = 10;

/// For each application, the identifiers of its input device and of its output device.
pub type Links = Vec<(String, (String, String))>;

/// The whole configuration: the devices, the applications and the links between them.
#[derive(Debug)]
pub struct Config {
    pub devices: config::Config,
    pub apps: apps::Config,
    pub links: Links,
}

/// An application to start, with the devices it is linked to.
#[derive(Debug)]
pub struct Link {
    pub app: AppStart,
    pub input_id: String,
    pub output_id: String,
    pub input_features: DeviceFeatures,
    pub output_features: DeviceFeatures,
}

/// Why a link cannot be made.
#[derive(Clone, Debug, PartialEq)]
pub enum LinkError {
    /// The input device of the application is not configured.
    InputNotConfigured { input: String, app: String },
    /// The output device of the application is not configured.
    OutputNotConfigured { output: String, app: String },
    /// The application is not configured.
    AppNotConfigured { app: String },
}

/// Whether `devices` has a device with identifier `id`.
pub open spec fn has_device(devices: Devices, id: Seq<char>) -> bool {
    devices.ids().contains(id)
}

/// Whether the device of `devices` with identifier `id` has `features`.
pub open spec fn has_device_features(devices: Devices, id: Seq<char>, features: DeviceFeatures) -> bool {
    exists|i: int|
        0 <= i < devices.entries().len() && #[trigger] devices.entries()[i].id@ == id
            && devices.entries()[i].features == features
}

/// The first link of `links` that cannot be made, with why, if any.
pub open spec fn first_link_error(devices: Devices, apps_config: apps::Config, links: Seq<(String, (String, String))>, r: Option<(int, LinkError)>) -> bool {
    match r {
        Some((k, e)) => 0 <= k < links.len() && link_error(devices, apps_config, links[k], Some(e))
            && forall|j: int| 0 <= j < k ==> link_error(devices, apps_config, #[trigger] links[j], None),
        None => forall|j: int| 0 <= j < links.len() ==> link_error(devices, apps_config, #[trigger] links[j], None),
    }
}

/// What is wrong with `link`, if anything: its input device, else its output device, else
/// its application, is not configured.
pub open spec fn link_error(devices: Devices, apps_config: apps::Config, link: (String, (String, String)), e: Option<LinkError>) -> bool {
    let (app, (input, output)) = link;
    if !has_device(devices, input@) {
        e matches Some(LinkError::InputNotConfigured { input: i, app: a }) && i@ == input@ && a@ == app@
    } else if !has_device(devices, output@) {
        e matches Some(LinkError::OutputNotConfigured { output: o, app: a }) && o@ == output@ && a@ == app@
    } else if apps::app_start(apps_config, app@) is None {
        e matches Some(LinkError::AppNotConfigured { app: a }) && a@ == app@
    } else {
        e is None
    }
}

/// Makes the links of the configuration: each application is started with the features of
/// its devices. The first link that cannot be made is reported.
pub fn resolve_links(devices: &Devices, apps_config: &apps::Config, links: &Links) -> (r: Result<Vec<Link>, LinkError>)
    requires
        devices.wf(),
    ensures
        match r {
            Ok(made) => {
                &&& first_link_error(*devices, *apps_config, links@, None)
                &&& made@.len() == links@.len()
                &&& forall|k: int| 0 <= k < links@.len() ==> {
                    let (app, (input, output)) = #[trigger] links@[k];
                    &&& made@[k].input_id@ == input@
                    &&& made@[k].output_id@ == output@
                    &&& Some(made@[k].app) == apps::app_start(*apps_config, app@)
                    &&& has_device_features(*devices, input@, made@[k].input_features)
                    &&& has_device_features(*devices, output@, made@[k].output_features)
                }
            },
            Err(e) => exists|k: int| first_link_error(*devices, *apps_config, links@, Some((k, e))),
        },
{
    let mut made: Vec<Link> = Vec::with_capacity(links.len());
    let mut k: usize = 0;
    while k < links.len()
        invariant
            k <= links@.len(),
            devices.wf(),
            made@.len() == k,
            forall|j: int| 0 <= j < k ==> link_error(*devices, *apps_config, #[trigger] links@[j], None),
            forall|j: int| 0 <= j < k ==> {
                let (app, (input, output)) = #[trigger] links@[j];
                &&& made@[j].input_id@ == input@
                &&& made@[j].output_id@ == output@
                &&& Some(made@[j].app) == apps::app_start(*apps_config, app@)
                &&& has_device_features(*devices, input@, made@[j].input_features)
                &&& has_device_features(*devices, output@, made@[j].output_features)
            },
        decreases links@.len() - k,
    {
        let (app_name, (input_name, output_name)) = (&links[k].0, (&links[k].1.0, &links[k].1.1));
        let input = match devices.get(input_name.as_str()) {
            Some(d) => d,
            None => {
                let e = LinkError::InputNotConfigured { input: input_name.clone(), app: app_name.clone() };
                assert(first_link_error(*devices, *apps_config, links@, Some((k as int, e))));
                return Err(e);
            },
        };
        let output = match devices.get(output_name.as_str()) {
            Some(d) => d,
            None => {
                proof {
                    assert(has_device(*devices, input_name@)) by {
                        let i = choose|i: int| 0 <= i < devices.entries().len() && devices.entries()[i] == *input && input.id@ == input_name@;
                        assert(devices.ids()[i] == input_name@);
                    }
                }
                let e = LinkError::OutputNotConfigured { output: output_name.clone(), app: app_name.clone() };
                assert(first_link_error(*devices, *apps_config, links@, Some((k as int, e))));
                return Err(e);
            },
        };
        proof {
            assert(has_device(*devices, input_name@)) by {
                let i = choose|i: int| 0 <= i < devices.entries().len() && devices.entries()[i] == *input && input.id@ == input_name@;
                assert(devices.ids()[i] == input_name@);
            }
            assert(has_device(*devices, output_name@)) by {
                let i = choose|i: int| 0 <= i < devices.entries().len() && devices.entries()[i] == *output && output.id@ == output_name@;
                assert(devices.ids()[i] == output_name@);
            }
            let i = choose|i: int| 0 <= i < devices.entries().len() && devices.entries()[i] == *input && input.id@ == input_name@;
            assert(devices.entries()[i].id@ == input_name@);
            let o = choose|i: int| 0 <= i < devices.entries().len() && devices.entries()[i] == *output && output.id@ == output_name@;
            assert(devices.entries()[o].id@ == output_name@);
        }
        let app = match apps_config.start(app_name.as_str()) {
            Some(app) => app,
            None => {
                let e = LinkError::AppNotConfigured { app: app_name.clone() };
                assert(first_link_error(*devices, *apps_config, links@, Some((k as int, e))));
                return Err(e);
            },
        };
        made.push(
            Link {
                app,
                input_id: input_name.clone(),
                output_id: output_name.clone(),
                input_features: input.features,
                output_features: output.features,
            },
        );
        k = k + 1;
    }
    Ok(made)
}

/// The outcome of a poll over the links, given whether each link could reach its input
/// device and its output device: fine as soon as one link reaches both; else the failure of
/// the last link, its input device first; a poll without links finds no device.
pub open spec fn cycle_outcome(ports: Seq<(Result<(), Error>, Result<(), Error>)>) -> Result<(), Error>
    decreases ports.len(),
{
    if ports.len() == 0 {
        Err(Error::DeviceNotFound)
    } else {
        let before = cycle_outcome(ports.drop_last());
        let (input, output) = ports.last();
        if before is Ok {
            before
        } else {
            match input {
                Err(e) => Err(e),
                Ok(()) => output,
            }
        }
    }
}

/// The outcome of a poll over the links.
pub fn cycle_execution(ports: &Vec<(Result<(), Error>, Result<(), Error>)>) -> (r: Result<(), Error>)
    ensures
        r == cycle_outcome(ports@),
{
    let mut execution: Result<(), Error> = Err(Error::DeviceNotFound);
    let mut k: usize = 0;
    while k < ports.len()
        invariant
            k <= ports@.len(),
            execution == cycle_outcome(ports@.take(k as int)),
        decreases ports@.len() - k,
    {
        proof {
            assert(ports@.take(k + 1).drop_last() =~= ports@.take(k as int));
        }
        if execution.is_err() {
            execution = match ports[k].0 {
                Err(e) => Err(e),
                Ok(()) => ports[k].1,
            };
        }
        k = k + 1;
    }
    assert(ports@.take(ports@.len() as int) =~= ports@);
    execution
}

/// A poll is fine exactly when one of the links reaches both of its devices.
pub proof fn cycle_is_fine_when_a_link_is_whole(ports: Seq<(Result<(), Error>, Result<(), Error>)>)
    ensures
        cycle_outcome(ports) is Ok <==> exists|k: int|
            0 <= k < ports.len() && (#[trigger] ports[k]).0 is Ok && ports[k].1 is Ok,
    decreases ports.len(),
{
    if ports.len() > 0 {
        let init = ports.drop_last();
        cycle_is_fine_when_a_link_is_whole(init);
        if cycle_outcome(ports) is Ok && cycle_outcome(init) is Err {
            assert(ports[ports.len() - 1].0 is Ok && ports[ports.len() - 1].1 is Ok);
        }
        if cycle_outcome(init) is Ok {
            let k = choose|k: int| 0 <= k < init.len() && (#[trigger] init[k]).0 is Ok && init[k].1 is Ok;
            assert(ports[k] == init[k]);
        }
        assert forall|k: int| 0 <= k < ports.len() && (#[trigger] ports[k]).0 is Ok && ports[k].1 is Ok
            implies cycle_outcome(ports) is Ok by {
            if k < ports.len() - 1 {
                assert(init[k] == ports[k]);
            }
        }
    }
}

/// A poll without links finds no device; a poll where no link reaches both of its devices
/// reports the failure of the last link, that of its input device first.
pub proof fn a_failed_cycle_reports_the_last_link(ports: Seq<(Result<(), Error>, Result<(), Error>)>)
    ensures
        ports.len() == 0 ==> cycle_outcome(ports) == Err::<(), Error>(Error::DeviceNotFound),
        ports.len() > 0 && cycle_outcome(ports) is Err ==> cycle_outcome(ports) == match ports.last().0 {
            Err(e) => Err(e),
            Ok(()) => ports.last().1,
        },
        ports.len() > 0 && ports.last().0 is Ok && ports.last().1 is Ok ==> cycle_outcome(ports) is Ok,
{
}

/// Whether the router goes on polling the same devices: it was not asked to stop, the last
/// poll was fine, and the devices were looked up less than the interval ago.
pub fn keep_polling(terminated: bool, execution: &Result<(), Error>, elapsed_ms: u64) -> (r: bool)
    ensures
        r <==> !terminated && execution is Ok && elapsed_ms < MIDI_DEVICE_POLL_INTERVAL_MS,
{
    !terminated && execution.is_ok() && elapsed_ms < MIDI_DEVICE_POLL_INTERVAL_MS
}

/// How long to wait after a poll: a short while when it was fine, long enough for devices to
/// be plugged in otherwise.
pub fn pause_after(execution: &Result<(), Error>) -> (r: u64)
    ensures
        execution is Ok ==> r == MIDI_EVENT_POLL_INTERVAL_MS,
        execution is Err ==> r == MIDI_DEVICE_POLL_INTERVAL_MS,
{
    match execution {
        Ok(()) => MIDI_EVENT_POLL_INTERVAL_MS,
        Err(_) => MIDI_DEVICE_POLL_INTERVAL_MS,
    }
}

/// The command of the web player to hand to the applications this cycle, if one came.
pub fn server_command(received: Result<Command, RecvError>) -> (r: Option<Command>)
    ensures
        match received {
            Ok(c) => r == Some(c),
            Err(_) => r is None,
        },
{
    match received {
        Ok(c) => Some(c),
        Err(_) => None,
    }
}

} // verus!
