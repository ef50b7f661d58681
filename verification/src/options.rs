//! What the service is started with.

use crate::address::{IpAddress, Ipv4Address};
use crate::config::{state_refresh_minutes, spec_state_refresh_minutes, DEFAULT_UDP_PORT};
use vstd::prelude::*;

verus! {

/// A diagnostic that is run in place of the service.
#[derive(Clone, Copy, Debug, PartialEq, Eq, Structural)]
pub enum TestOption {
    /// Print the address of the ingress controller.
    GetTraefik,
    /// Print the hostnames of the ingresses that the controller serves.
    GetIngressNames,
}

/// An address and a port to listen on.
#[derive(Clone, Copy, Debug, PartialEq, Eq, Structural)]
pub struct Endpoint {
    pub address: IpAddress,
    pub port: u16,
}

/// The settings of one run.
#[derive(Clone, Debug)]
pub struct Options {
    /// Where to listen for datagrams.
    pub udp: Vec<Endpoint>,
    /// Where to listen for connections.
    pub tcp: Vec<Endpoint>,
    /// The diagnostic to run, if any.
    pub test_mode: Option<TestOption>,
    /// Minutes after which a snapshot is stale.
    pub state_refresh_minutes: i64,
}

/// What the process does once its settings are read.
#[derive(Clone, Copy, Debug, PartialEq, Eq, Structural)]
pub enum StartupPlan {
    /// Print the address of the ingress controller and stop.
    PrintTraefikAddress,
    /// Print the ingress hostnames and stop.
    PrintIngressNames,
    /// Serve queries.
    Serve,
}

/// What a run with this diagnostic setting does.
pub open spec fn spec_startup_plan(test_mode: Option<TestOption>) -> StartupPlan {
    match test_mode {
        Some(TestOption::GetTraefik) => StartupPlan::PrintTraefikAddress,
        Some(TestOption::GetIngressNames) => StartupPlan::PrintIngressNames,
        None => StartupPlan::Serve,
    }
}

/// The endpoint that is listened on for datagrams where none is given: every
/// IPv4 address of the host, on the default port.
pub open spec fn spec_default_udp() -> Endpoint {
    Endpoint {
        address: IpAddress::V4(Ipv4Address { a: 0, b: 0, c: 0, d: 0 }),
        port: DEFAULT_UDP_PORT,
    }
}

impl Options {
    /// The settings of a run that is given none: one datagram listener, no
    /// connection listener, no diagnostic, and the staleness threshold of
    /// the kind of build.
    pub fn defaults(debug_build: bool) -> (options: Options)
        ensures
            options.udp@ == seq![spec_default_udp()],
            options.tcp@ == Seq::<Endpoint>::empty(),
            options.test_mode is None,
            options.state_refresh_minutes == spec_state_refresh_minutes(debug_build),
    {
        let mut udp: Vec<Endpoint> = Vec::new();
        udp.push(
            Endpoint { address: IpAddress::V4(Ipv4Address::new(0, 0, 0, 0)), port: DEFAULT_UDP_PORT },
        );
        assert(udp@ =~= seq![spec_default_udp()]);
        Options {
            udp,
            tcp: Vec::new(),
            test_mode: None,
            state_refresh_minutes: state_refresh_minutes(debug_build),
        }
    }

    /// Whether this run serves queries or runs a diagnostic, and which.
    pub fn startup_plan(&self) -> (plan: StartupPlan)
        ensures
            plan == spec_startup_plan(self.test_mode),
    {
        match self.test_mode {
            Some(TestOption::GetTraefik) => StartupPlan::PrintTraefikAddress,
            Some(TestOption::GetIngressNames) => StartupPlan::PrintIngressNames,
            None => StartupPlan::Serve,
        }
    }
}

} // verus!
