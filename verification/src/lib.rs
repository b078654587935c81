//! Core of a desktop package-manager front end: the pure decision logic and
//! the supervisor model for one interactive external operation at a time.
//!
//! The library is organised leaf-first:
//! - [`text`] holds small char/string helpers shared by the other modules;
//! - [`sanitize`] strips terminal control sequences from process output;
//! - [`script`] builds the shell-quoted self-heal script for helper installs;
//! - [`policy`] selects the concrete command line for an operation;
//! - [`process`] models the live handle of a running operation: output
//!   draining, input injection, completion polling, cancellation;
//! - [`html`], [`aur`] and [`pacman`] hold the text utilities of the
//!   catalog-search layer.
//!
//! Everything that talks to the operating system (spawning, pipes, file
//! removal, capability probes) lives outside this crate; the functions here
//! take the probe results and observed events as values and hand back
//! fully-formed decisions.

pub mod aur;
pub mod html;
pub mod pacman;
pub mod policy;
pub mod process;
pub mod sanitize;
pub mod script;
pub mod text;
