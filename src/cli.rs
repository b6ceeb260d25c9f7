//! The requested action and the interface pair it applies to.

use vstd::prelude::*;

verus! {

/// Command line of the tool: one subcommand.
#[derive(Debug)]
pub struct Cli {
    command: Commands,
}

impl Cli {
    pub fn new(command: Commands) -> (r: Cli)
        ensures
            r.command_spec() == command,
    {
        Cli { command }
    }

    pub closed spec fn command_spec(&self) -> Commands {
        self.command
    }

    pub fn get_command(&self) -> (r: &Commands)
        ensures
            *r == self.command_spec(),
    {
        &self.command
    }
}

/// The two interfaces of a tap, in processing order.
#[derive(Debug)]
pub struct NetworkArgs {
    interface_a: String,
    interface_b: String,
}

impl NetworkArgs {
    pub fn new(interface_a: String, interface_b: String) -> (r: NetworkArgs)
        ensures
            r.first()@ == interface_a@,
            r.second()@ == interface_b@,
    {
        NetworkArgs { interface_a, interface_b }
    }

    pub closed spec fn first(&self) -> String {
        self.interface_a
    }

    pub closed spec fn second(&self) -> String {
        self.interface_b
    }

    pub fn get_interfaces(&self) -> (r: (&str, &str))
        ensures
            r.0@ == self.first()@,
            r.1@ == self.second()@,
    {
        (self.interface_a.as_str(), self.interface_b.as_str())
    }
}

/// What to do with the pair.
#[derive(Debug)]
pub enum Commands {
    Start(NetworkArgs),
    Stop(NetworkArgs),
    Status(NetworkArgs),
}

} // verus!
