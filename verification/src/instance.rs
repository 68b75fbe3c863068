//! Only one daemon runs at a time.

use vstd::prelude::*;

verus! {

/// The name of the lock that the one running daemon holds.
pub const MUTEX_NAME: &'static str = "Global\\auxdeck-daemon";

/// Whether this is the only daemon. `H` is the handle of the lock.
#[derive(Debug, PartialEq, Eq)]
pub enum SingleInstance<H> {
    /// It is, as long as the handle is kept.
    Acquired(H),
    /// Another one is running.
    AlreadyRunning,
    /// The lock could not be asked for, so nobody knows.
    Unverified,
}

/// What asking for the lock came to, and the handle to give back, if any.
pub struct Acquisition<H> {
    pub instance: SingleInstance<H>,
    pub close: Option<H>,
}

/// What it means that the lock was handed out, or was not. `existed` tells whether it was there
/// already; the handle of a lock that another daemon holds is given back.
pub fn acquire<H>(lock: Option<H>, existed: bool) -> (acquisition: Acquisition<H>)
    ensures
        match lock {
            Some(handle) => if existed {
                &&& acquisition.instance is AlreadyRunning
                &&& acquisition.close == Some(handle)
            } else {
                &&& acquisition.instance == SingleInstance::Acquired(handle)
                &&& acquisition.close is None
            },
            None => acquisition.instance is Unverified && acquisition.close is None,
        },
{
    match lock {
        Some(handle) => if existed {
            Acquisition { instance: SingleInstance::AlreadyRunning, close: Some(handle) }
        } else {
            Acquisition { instance: SingleInstance::Acquired(handle), close: None }
        },
        None => Acquisition { instance: SingleInstance::Unverified, close: None },
    }
}

impl<H> SingleInstance<H> {
    /// Whether the daemon should run: not if another one does, but also where nobody knows.
    pub fn may_run(&self) -> (run: bool)
        ensures
            run == !(self is AlreadyRunning),
    {
        match self {
            SingleInstance::AlreadyRunning => false,
            _ => true,
        }
    }
}

} // verus!
