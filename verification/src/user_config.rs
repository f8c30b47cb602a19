//! Immutable run configuration, parsed by the caller and handed in at
//! engine creation.
use vstd::prelude::*;

verus! {

/// Which side of the throughput test this process plays.
#[derive(Clone, Copy, Debug, PartialEq, Eq)]
pub enum AppMode {
    kClient,
    kServer,
}

/// Transport protocol selection.
#[derive(Clone, Copy, Debug, PartialEq, Eq)]
pub enum Lay4Mode {
    kTcp,
    kUdp,
}

/// Run configuration; immutable after startup.
#[derive(Debug)]
pub struct UserConfig {
    pub appMode: AppMode,
    pub lay4Mode: Lay4Mode,
    pub packetSize: u32,
    pub testTimeSeconds: u64, // 0 - forever, until ctrl-c
    pub port: u32,
    pub ip: String,
}

impl Default for UserConfig {
    /// The stock configuration: a TCP server on port 9090.
    fn default() -> (c: Self)
        ensures
            c.appMode == AppMode::kServer,
            c.lay4Mode == Lay4Mode::kTcp,
            c.packetSize == 65535,
            c.testTimeSeconds == 0,
            c.port == 9090,
            c.ip@ == Seq::<char>::empty(),
    {
        UserConfig {
            appMode: AppMode::kServer,
            lay4Mode: Lay4Mode::kTcp,
            packetSize: 65535,
            testTimeSeconds: 0,
            port: 9090,
            ip: String::new(),
        }
    }
}

} // verus!
