use vstd::prelude::*;

pub mod command;
pub mod device;
pub mod devices;
pub mod error;
pub mod features;
pub mod grid;
pub mod launchpadpro;
pub mod names;

pub use command::{FromImage, FromImages, IntoAppIndex, IntoIndex};
pub use device::{Event, Reader, Writer};
pub use error::Error;
pub use names::device_names;

verus! {

} // verus!
