//! Trigger configurations as their users write them.

use vstd::prelude::*;

verus! {

/// The clock section of a trigger configuration: wake the spell every
/// `period_sec` seconds from `start_sec` until `end_sec`, both in Unix time.
/// A `start_sec` of 0 stands for "do not run", an `end_sec` of 0 for "never
/// stop", a `period_sec` of 0 for "do not subscribe".
#[derive(Clone, Copy, Debug, PartialEq, Eq, Structural)]
pub struct ClockConfig {
    pub start_sec: u32,
    pub end_sec: u32,
    pub period_sec: u32,
}

/// The system events a spell asks to be woken on: peers connecting to the
/// node, peers disconnecting from it.
#[derive(Clone, Copy, Debug, PartialEq, Eq, Structural)]
pub struct ConnectionPoolConfig {
    pub connect: bool,
    pub disconnect: bool,
}

/// The range of chain blocks a spell asks to be woken on. A `start_block` of
/// 0 stands for "do not subscribe", an `end_block` of 0 for "never stop".
#[derive(Clone, Copy, Debug, PartialEq, Eq, Structural)]
pub struct BlockChainConfig {
    pub start_block: u32,
    pub end_block: u32,
}

/// A trigger configuration as its user wrote it. It is stored with the spell
/// exactly as given and handed back exactly as stored; whether it is well
/// formed, and which triggers it resolves to, is for the trigger service's
/// validation to say.
#[derive(Clone, Copy, Debug, PartialEq, Eq, Structural)]
pub struct TriggerConfig {
    pub clock: ClockConfig,
    pub connections: ConnectionPoolConfig,
    pub blockchain: BlockChainConfig,
}

impl TriggerConfig {
    /// The configuration that names no trigger at all: every number 0, every
    /// flag off.
    pub open spec fn blank() -> TriggerConfig {
        TriggerConfig {
            clock: ClockConfig { start_sec: 0, end_sec: 0, period_sec: 0 },
            connections: ConnectionPoolConfig { connect: false, disconnect: false },
            blockchain: BlockChainConfig { start_block: 0, end_block: 0 },
        }
    }
}

impl Default for ClockConfig {
    fn default() -> (r: ClockConfig)
        ensures
            r == TriggerConfig::blank().clock,
    {
        ClockConfig { start_sec: 0, end_sec: 0, period_sec: 0 }
    }
}

impl Default for ConnectionPoolConfig {
    fn default() -> (r: ConnectionPoolConfig)
        ensures
            r == TriggerConfig::blank().connections,
    {
        ConnectionPoolConfig { connect: false, disconnect: false }
    }
}

impl Default for BlockChainConfig {
    fn default() -> (r: BlockChainConfig)
        ensures
            r == TriggerConfig::blank().blockchain,
    {
        BlockChainConfig { start_block: 0, end_block: 0 }
    }
}

impl Default for TriggerConfig {
    fn default() -> (r: TriggerConfig)
        ensures
            r == TriggerConfig::blank(),
    {
        TriggerConfig {
            clock: ClockConfig { start_sec: 0, end_sec: 0, period_sec: 0 },
            connections: ConnectionPoolConfig { connect: false, disconnect: false },
            blockchain: BlockChainConfig { start_block: 0, end_block: 0 },
        }
    }
}

} // verus!
