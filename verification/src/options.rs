//! What the collector on a device is asked to report.

use vstd::prelude::*;

verus! {

/// The sections of a snapshot that the collector fills.
#[derive(Clone, Copy, Debug, PartialEq, Eq, Structural)]
pub struct CollectorOptions {
    pub cpu: bool,
    pub memory: bool,
    pub os: bool,
    pub network: bool,
    pub filesystem: bool,
    pub swap: bool,
}

impl CollectorOptions {
    pub fn new(cpu: bool, memory: bool, os: bool, network: bool, filesystem: bool, swap: bool) -> (r:
        Self)
        ensures
            r == (CollectorOptions { cpu, memory, os, network, filesystem, swap }),
    {
        Self { cpu, memory, os, network, filesystem, swap }
    }

    pub fn cpu(&self) -> (r: bool)
        ensures
            r == self.cpu,
    {
        self.cpu
    }

    pub fn memory(&self) -> (r: bool)
        ensures
            r == self.memory,
    {
        self.memory
    }

    pub fn os(&self) -> (r: bool)
        ensures
            r == self.os,
    {
        self.os
    }

    pub fn filesystem(&self) -> (r: bool)
        ensures
            r == self.filesystem,
    {
        self.filesystem
    }

    pub fn swap(&self) -> (r: bool)
        ensures
            r == self.swap,
    {
        self.swap
    }

    pub fn network(&self) -> (r: bool)
        ensures
            r == self.network,
    {
        self.network
    }
}

} // verus!
