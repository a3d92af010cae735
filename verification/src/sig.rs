//! The operating-system signals that can trigger a graceful shutdown.
use vstd::prelude::*;

verus! {

/// A signal that can be configured to trigger a graceful shutdown.
#[derive(Debug, Clone, Copy, PartialEq, Eq, Structural, Hash)]
pub enum Sig {
    /// `SIGALRM`
    Alrm,
    /// `SIGCHLD`
    Chld,
    /// `SIGHUP`
    Hup,
    /// `SIGINT`
    Int,
    /// `SIGIO`
    Io,
    /// `SIGPIPE`
    Pipe,
    /// `SIGQUIT`
    Quit,
    /// `SIGTERM`
    Term,
    /// `SIGUSR1`
    Usr1,
    /// `SIGUSR2`
    Usr2,
}

} // verus!
