//! The devices of the configuration, each with the features of its kind.
use vstd::prelude::*;

pub mod config;
pub mod default;
pub mod features;
pub mod launchpadpro;

use config::{Config, DeviceConfig, DeviceType};
pub use features::DeviceFeatures;

verus! {

/// A configured device.
#[derive(Clone, Debug)]
pub struct Device {
    pub id: String,
    pub name: String,
    pub device_type: DeviceType,
    pub features: DeviceFeatures,
}

/// A configured device together with the port it is read from.
pub struct DeviceWithInputPort<P> {
    pub id: String,
    pub name: String,
    pub device_type: DeviceType,
    pub features: DeviceFeatures,
    pub port: P,
}

/// A configured device together with the port it is written to.
pub struct DeviceWithOutputPort<P> {
    pub id: String,
    pub name: String,
    pub device_type: DeviceType,
    pub features: DeviceFeatures,
    pub port: P,
}

/// The features of a device of kind `device_type`.
pub open spec fn features_of(device_type: DeviceType) -> DeviceFeatures {
    match device_type {
        DeviceType::Default => DeviceFeatures::Default(default::DefaultFeatures {  }),
        DeviceType::LaunchpadPro => DeviceFeatures::LaunchpadPro(
            launchpadpro::LaunchpadProFeatures {  },
        ),
    }
}

/// A device configured as a Launchpad Pro is driven as one, with its 8×8 grid; any other
/// device is driven as a plain keyboard, without a grid.
pub proof fn each_kind_of_device_gets_its_features(device_type: DeviceType, r: crate::midi::features::R<(usize, usize)>)
    ensures
        features_of(device_type) is LaunchpadPro <==> device_type is LaunchpadPro,
        features_of(device_type) is Default <==> device_type is Default,
        device_type is LaunchpadPro ==> (features_of(device_type).grid_size(r) <==> r == Ok::<
            (usize, usize),
            crate::midi::features::FeatureError,
        >((8, 8))),
        device_type is Default ==> (features_of(device_type).grid_size(r) ==> r is Err),
{
}

/// Whether `device` is the device that `config` describes under the identifier `id`.
pub open spec fn describes(device: Device, id: Seq<char>, config: DeviceConfig) -> bool {
    &&& device.id@ == id
    &&& device.name@ == config.name@
    &&& device.device_type == config.device_type
    &&& device.features == features_of(config.device_type)
}

/// Whether no identifier occurs twice among `ids`.
pub open spec fn distinct_ids(ids: Seq<Seq<char>>) -> bool {
    forall|i: int, j: int| 0 <= i < j < ids.len() ==> ids[i] != ids[j]
}

/// The identifiers of a configuration, in its order.
pub open spec fn config_ids(config: Seq<(String, DeviceConfig)>) -> Seq<Seq<char>> {
    config.map_values(|entry: (String, DeviceConfig)| entry.0@)
}

/// The devices of the configuration, found by their identifiers.
pub struct Devices {
    devices: Vec<Device>,
}

impl Devices {
    /// The devices, in the order of the configuration.
    pub closed spec fn entries(&self) -> Seq<Device> {
        self.devices@
    }

    /// The identifiers of the devices, in the order of the configuration.
    pub open spec fn ids(&self) -> Seq<Seq<char>> {
        self.entries().map_values(|d: Device| d.id@)
    }

    /// No two devices share an identifier.
    pub open spec fn wf(&self) -> bool {
        distinct_ids(self.ids())
    }

    /// The devices of `config`, one per identifier.
    pub fn from(config: &Config) -> (r: Devices)
        requires
            distinct_ids(config_ids(config@)),
        ensures
            r.wf(),
            r.entries().len() == config@.len(),
            forall|i: int|
                0 <= i < config@.len() ==> describes(
                    #[trigger] r.entries()[i],
                    config@[i].0@,
                    config@[i].1,
                ),
            forall|i: int|
                0 <= i < config@.len() ==> ((#[trigger] r.entries()[i]).features is LaunchpadPro
                    <==> config@[i].1.device_type is LaunchpadPro),
    {
        let mut devices: Vec<Device> = Vec::with_capacity(config.len());
        let mut k: usize = 0;
        while k < config.len()
            invariant
                k <= config@.len(),
                devices@.len() == k,
                forall|i: int|
                    0 <= i < k ==> describes(#[trigger] devices@[i], config@[i].0@, config@[i].1),
            decreases config@.len() - k,
        {
            let (id, device_config) = (&config[k].0, &config[k].1);
            let features = match device_config.device_type {
                DeviceType::Default => DeviceFeatures::Default(default::DefaultFeatures::new()),
                DeviceType::LaunchpadPro => DeviceFeatures::LaunchpadPro(
                    launchpadpro::LaunchpadProFeatures::new(),
                ),
            };
            devices.push(
                Device {
                    id: id.clone(),
                    name: device_config.name.clone(),
                    device_type: device_config.device_type,
                    features,
                },
            );
            k = k + 1;
        }
        let r = Devices { devices };
        assert forall|i: int, j: int| 0 <= i < j < r.ids().len() implies r.ids()[i] != r.ids()[j] by {
            assert(r.ids()[i] == config_ids(config@)[i]);
            assert(r.ids()[j] == config_ids(config@)[j]);
        }
        r
    }

    /// The device with identifier `id`, if one is configured.
    pub fn get(&self, id: &str) -> (r: Option<&Device>)
        requires
            self.wf(),
        ensures
            match r {
                Some(device) => exists|i: int|
                    0 <= i < self.entries().len() && self.entries()[i] == *device && device.id@
                        == id@,
                None => !self.ids().contains(id@),
            },
    {
        let key = id.to_owned();
        let mut k: usize = 0;
        while k < self.devices.len()
            invariant
                k <= self.devices@.len(),
                key@ == id@,
                forall|i: int| 0 <= i < k ==> self.devices@[i].id@ != id@,
            decreases self.devices@.len() - k,
        {
            if self.devices[k].id == key {
                assert(self.entries()[k as int] == self.devices@[k as int]);
                return Some(&self.devices[k]);
            }
            k = k + 1;
        }
        proof {
            if self.ids().contains(id@) {
                let i = choose|i: int| 0 <= i < self.ids().len() && self.ids()[i] == id@;
                assert(self.devices@[i].id@ == id@);
            }
        }
        None
    }
}

impl Device {
    /// This device together with the port it is read from.
    pub fn with_input_port<P>(&self, port: P) -> (r: DeviceWithInputPort<P>)
        ensures
            r.id == self.id,
            r.name == self.name,
            r.device_type == self.device_type,
            r.features == self.features,
            r.port == port,
    {
        DeviceWithInputPort {
            id: self.id.clone(),
            name: self.name.clone(),
            device_type: self.device_type,
            features: self.features,
            port,
        }
    }

    /// This device together with the port it is written to.
    pub fn with_output_port<P>(&self, port: P) -> (r: DeviceWithOutputPort<P>)
        ensures
            r.id == self.id,
            r.name == self.name,
            r.device_type == self.device_type,
            r.features == self.features,
            r.port == port,
    {
        DeviceWithOutputPort {
            id: self.id.clone(),
            name: self.name.clone(),
            device_type: self.device_type,
            features: self.features,
            port,
        }
    }
}

} // verus!
