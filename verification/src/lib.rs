//! The logic of a tool that turns the Loudness Equalization of Windows on and
//! off: what it reads and writes, in which order, and what it says.
//!
//! Nothing here talks to Windows. What is stored in the registry comes in as
//! plain values; what has to be done with the audio policy service, the service
//! control manager, the registry or the screen goes out as the commands of small
//! scripts. A script is a state machine: it says what to do next, the program
//! around it does that and says what came of it.
//!
//! - [`regvalue`] and [`property`]: values as they are stored, and as they are
//!   handed to the policy service.
//! - [`fx`], [`fallback`] and [`readback`]: the settings of an endpoint, how
//!   they are read and written, and that what is written reads back.
//! - [`session`] and [`service`]: changes through the policy service, and the
//!   restart of the audio service.
//! - [`device`] and [`listing`]: playback devices, how they are listed and
//!   picked.
//! - [`descriptor`] and [`setup`]: the rights to restart the audio service.
//! - [`cli`], [`run`], [`lines`] and [`relaunch`]: the command line, what a run
//!   does and says, and how it starts itself again with elevated rights.
//! - [`tray`] and [`icon`]: the tray program.
//! - [`text`], [`strip`] and [`guid`]: texts and identifiers.
//! - [`text_laws`], [`settings_laws`], [`session_laws`], [`command_laws`] and
//!   [`run_laws`]: what all of this comes to, stated of whole texts, values,
//!   sessions, command lines and runs.
pub mod cli;
pub mod command_laws;
pub mod descriptor;
pub mod device;
pub mod fallback;
pub mod fx;
pub mod guid;
pub mod icon;
pub mod lines;
pub mod listing;
pub mod property;
pub mod readback;
pub mod regvalue;
pub mod relaunch;
pub mod run;
pub mod run_laws;
pub mod service;
pub mod session;
pub mod session_laws;
pub mod settings_laws;
pub mod setup;
pub mod strip;
pub mod text;
pub mod text_laws;
pub mod tray;

pub use crate::device::{resolve_target, state_text, Device, RENDER_PATH};
pub use crate::fallback::write_loudness;
pub use crate::fx::{
    fx_instance_guids, fx_properties_path, read_loudness, read_release_time, read_sysfx_disabled,
    DISABLE_SYSFX_VALUE, LOUDNESS_VALUE,
};
pub use crate::listing::{
    default_endpoint_guid, enumerate_devices, DEVICE_DESC_VALUE, ENDPOINT_NAME_VALUE,
};
pub use crate::regvalue::{parse_bool_value, RegType, RegValue};
pub use crate::relaunch::is_elevated;
pub use crate::service::{restart_audio_service, RestartError};
pub use crate::session::{
    apply_loudness_live, loudness_session, reset_endpoint, set_default_device,
    set_enhancements_enabled, set_release_time,
};
