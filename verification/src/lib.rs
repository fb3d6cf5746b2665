//! The commands of a desktop window shell, without the desktop.
//!
//! A front end invokes the shell's commands by name: greet, move or drag the
//! window, ask for the size of the screen or the position of the window, quit.
//! The window itself belongs to the host's window system. This library holds
//! what is left to decide: which names a shell serves ([`registry`],
//! [`command`]), the sentence a greeting is made of ([`greeting`]), and the
//! answer that the front end gets once the host has spoken. There are two
//! shells: [`reporting`] turns every failure of the host into a sentence for
//! the front end, [`silent`] drops it.
//!
//! The program around the library asks the host and hands over what it said,
//! as plain values.

pub mod command;
pub mod greeting;
pub mod registry;
pub mod reporting;
pub mod silent;
pub mod text;
