//! Configuration of the viewer: how often the log command runs and how it is
//! invoked.

use vstd::prelude::*;
use vstd::string::StringExecFns;
use crate::args::Args;

verus! {

/// A span of time: whole seconds and the nanoseconds beyond them.
#[derive(Clone, Copy, Debug, PartialEq, Eq)]
pub struct Period {
    pub secs: u64,
    pub subsec_nanos: u32,
}

impl Period {
    /// The span of `secs` whole seconds.
    pub fn from_secs(secs: u64) -> (period: Period)
        ensures
            period == (Period { secs, subsec_nanos: 0 }),
    {
        Period { secs, subsec_nanos: 0 }
    }

    /// The span in nanoseconds.
    pub open spec fn nanos(self) -> int {
        self.secs * 1_000_000_000 + self.subsec_nanos
    }
}

/// The settings themselves.
#[derive(Clone, Copy, Debug)]
pub struct ConfigInner {
    pub log_command_period: Period,
    pub no_snapshot: bool,
}

/// The settings of a running viewer. They are fixed once built.
#[derive(Clone, Copy, Debug)]
pub struct Config {
    inner: ConfigInner,
}

/// Why no configuration could be built. Building one cannot fail yet, so
/// no function returns this.
#[derive(Clone, Copy, Debug)]
pub struct ConfigError;

/// A program and the arguments to run it with.
#[derive(Debug)]
pub struct CommandLine {
    pub program: String,
    pub args: Vec<String>,
}

/// The arguments of the log command, as sequences of characters.
pub open spec fn log_command_args(no_snapshot: bool) -> Seq<Seq<char>> {
    if no_snapshot {
        seq![
            "log"@,
            "--ignore-working-copy"@,
            "--color"@,
            "always"@,
            "--no-pager"@,
            "--quiet"@,
        ]
    } else {
        seq!["log"@, "--color"@, "always"@, "--no-pager"@, "--quiet"@]
    }
}

/// The arguments taken as sequences of characters.
pub open spec fn arg_texts(args: Seq<String>) -> Seq<Seq<char>> {
    args.map_values(|arg: String| arg@)
}

impl View for Config {
    type V = ConfigInner;

    closed spec fn view(&self) -> ConfigInner {
        self.inner
    }
}

impl Config {
    /// The configuration that `args` ask for: the log command runs every two
    /// seconds, and snapshots the working copy unless `args` say otherwise.
    pub fn from_args_and_env(args: &Args) -> (built: Result<Config, ConfigError>)
        ensures
            built is Ok,
            built->Ok_0@ == (ConfigInner {
                log_command_period: Period { secs: 2, subsec_nanos: 0 },
                no_snapshot: args.no_snapshot,
            }),
    {
        Ok(
            Config {
                inner: ConfigInner {
                    log_command_period: Period::from_secs(2),
                    no_snapshot: args.no_snapshot,
                },
            },
        )
    }

    /// The settings, for reading.
    pub fn read(&self) -> (inner: &ConfigInner)
        ensures
            *inner == self@,
    {
        &self.inner
    }

    /// The command that prints the log: `jj log`, coloured, unpaged and
    /// quiet, and without a snapshot where the configuration says so.
    pub fn command(&self) -> (command: CommandLine)
        ensures
            command.program@ == "jj"@,
            command.args@.len() == log_command_args(self@.no_snapshot).len(),
            arg_texts(command.args@) == log_command_args(self@.no_snapshot),
    {
        let config = self.read();
        let mut args: Vec<String> = Vec::new();
        args.push(String::from_str("log"));
        if config.no_snapshot {
            args.push(String::from_str("--ignore-working-copy"));
        }
        args.push(String::from_str("--color"));
        args.push(String::from_str("always"));
        args.push(String::from_str("--no-pager"));
        args.push(String::from_str("--quiet"));
        assert(arg_texts(args@) =~= log_command_args(self@.no_snapshot));
        CommandLine { program: String::from_str("jj"), args }
    }

    /// How long to wait between two runs of the log command.
    pub fn log_command_duration(&self) -> (period: Period)
        ensures
            period == self@.log_command_period,
    {
        self.read().log_command_period
    }
}

} // verus!
