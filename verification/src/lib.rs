//! Core of a fan control daemon for notebooks whose fans sit behind an ACPI
//! embedded controller (EC).
//!
//! The crate holds the decisions of the daemon as functions on plain values:
//! the configuration model and its validation, the byte-level encoding of fan
//! speeds, the `/dev/port` handshake, threshold selection with hysteresis and
//! the control loop's state. Nothing here touches a device or a file: every
//! operation either computes a value or returns the list of register
//! transfers that the caller has to carry out.
//!
//! Fan speeds are fixed-point numbers in thousandths of a percent and
//! temperatures are whole degrees Celsius or thousandths of a degree; see
//! [`units`].
//!
//! - [`nbfc`], [`nbfc_xml`] and [`check`] hold the configuration of a
//!   notebook model, the shape of its documents and its validation.
//! - [`config`] and [`loader`] hold the settings of the daemon and the rules
//!   by which a configuration is found by its name.
//! - [`ec_control`] holds the transfers to and from the controller, the
//!   port handshake, the reader, the writer, the fan curves and the control
//!   loop.
//! - [`state`], [`error`], [`signals`] and [`temp`] hold what clients see,
//!   the kinds of failure, the meaning of signals and the temperature that
//!   drives the fans.

pub mod units;
pub mod nbfc;
pub mod nbfc_xml;
pub mod check;
pub mod config;
pub mod ec_control;
pub mod error;
pub mod loader;
pub mod signals;
pub mod state;
pub mod temp;
pub mod text;
