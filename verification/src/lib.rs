//! The decisions behind the installation of a GPU driver and toolkit on a
//! Debian-family host.
//!
//! Nothing in this library touches the machine. Each workflow is a state
//! machine that hands out one request at a time (run this command, say
//! whether this path exists) and takes the host's reply to decide what
//! comes next. The program around the library carries the requests out.
//! After a restart a workflow simply starts again: all it knows it learns
//! anew from the host.
//!
//! Every step of every workflow is specified by a function over `Seq<char>`
//! models of the texts involved, and what a whole run asks of the host is
//! stated and proved as laws over `host::play`.
//!
//! - [`text`], [`space`], [`number`]: splitting, searching, trimming and
//!   reading numbers.
//! - [`release`]: the supported toolkit releases and platforms.
//! - [`kernel`], [`target`]: kernel package names and the kernel to install.
//! - [`host`]: requests, replies and runs.
//! - [`runner`]: how a command is split and retried.
//! - [`fetch`]: downloading an installer once and checking its checksum.
//! - [`deps`]: the kernel dependencies and the decision to restart.
//! - [`presence`], [`hold`]: looking for the driver; holding the kernel.
//! - [`driver`], [`removal`]: installing and removing the driver.
//! - [`toolkit`], [`setup`]: installing the toolkit and configuring the host.

pub mod deps;
pub mod driver;
pub mod fetch;
pub mod hold;
pub mod host;
pub mod kernel;
pub mod number;
pub mod presence;
pub mod release;
pub mod removal;
pub mod runner;
pub mod setup;
pub mod space;
pub mod target;
pub mod text;
pub mod toolkit;
