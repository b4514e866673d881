use vstd::prelude::*;
use vstd::string::*;
use crate::model::{texts, CoordinatorInfo, CoordinatorInfoView};
use crate::text::{decimal, decimal_spec, parse_unsigned, parse_unsigned_spec};

verus! {

/// The port that `s` names, if it is a valid `u16`.
pub open spec fn port_of(s: Seq<char>) -> Option<u16> {
    match parse_unsigned_spec(s, 65535) {
        Some(v) => Some(v as u16),
        None => None,
    }
}

/// The count that `s` names, if it is a valid `usize`.
pub open spec fn count_of(s: Seq<char>) -> Option<usize> {
    match parse_unsigned_spec(s, usize::MAX as nat) {
        Some(v) => Some(v as usize),
        None => None,
    }
}

/// The end of a scan of the optional arguments.
pub enum ScanEnd {
    /// All arguments read: the peer port, the number of entities to start, and the
    /// arguments that were not understood, in order.
    Done { peer_port: Option<u16>, auto_spawn_count: Option<usize>, unknown: Seq<Seq<char>> },
    /// `--entities` came last, with no count after it; the arguments not understood
    /// before it, in order.
    MissingCount { unknown: Seq<Seq<char>> },
}

/// Scans the arguments from position `i` on. `--entities` takes the next argument as
/// the number of entities to start (none if it is not a number); the first argument
/// that is a port becomes the peer port; anything else is not understood.
pub open spec fn scan_args(
    args: Seq<Seq<char>>,
    i: int,
    peer_port: Option<u16>,
    auto_spawn_count: Option<usize>,
    unknown: Seq<Seq<char>>,
) -> ScanEnd
    decreases args.len() - i,
{
    if i >= args.len() || i < 0 {
        ScanEnd::Done { peer_port, auto_spawn_count, unknown }
    } else if args[i] == "--entities"@ {
        if i + 1 < args.len() {
            scan_args(args, i + 2, peer_port, count_of(args[i + 1]), unknown)
        } else {
            ScanEnd::MissingCount { unknown }
        }
    } else if port_of(args[i]) is Some && peer_port is None {
        scan_args(args, i + 1, port_of(args[i]), auto_spawn_count, unknown)
    } else {
        scan_args(args, i + 1, peer_port, auto_spawn_count, unknown.push(args[i]))
    }
}

/// What to run, as read from the command line.
#[derive(Debug)]
pub struct CliConfig {
    /// The port to serve HTTP on.
    pub port: u16,
    /// The port of a peer coordinator on this host.
    pub peer_port: Option<u16>,
    /// How many entities to start.
    pub auto_spawn_count: Option<usize>,
    /// The arguments that were not understood, in order.
    pub unknown_args: Vec<String>,
}

/// What the command line asks for.
#[derive(Debug)]
pub enum CliCommand {
    /// Too few arguments: print the usage and stop.
    Usage,
    /// `--entities` without a count: report it and stop, after the arguments that
    /// were not understood before it.
    MissingEntitiesCount { unknown_args: Vec<String> },
    /// Run a coordinator.
    Run(CliConfig),
}

/// `cmd` is what the arguments `args` (the program name first) ask for: the usage
/// when there is no port argument; else the port (9000 when it is not a valid port)
/// and what the scan of the remaining arguments finds.
pub open spec fn command_for(cmd: CliCommand, args: Seq<Seq<char>>) -> bool {
    if args.len() < 2 {
        cmd is Usage
    } else {
        let port = match port_of(args[1]) {
            Some(p) => p,
            None => 9000u16,
        };
        match scan_args(args, 2, None, None, Seq::empty()) {
            ScanEnd::Done { peer_port, auto_spawn_count, unknown } => cmd matches CliCommand::Run(c)
                && c.port == port && c.peer_port == peer_port && c.auto_spawn_count
                == auto_spawn_count && texts(c.unknown_args@) == unknown,
            ScanEnd::MissingCount { unknown } => cmd matches CliCommand::MissingEntitiesCount {
                unknown_args,
            } && texts(unknown_args@) == unknown,
        }
    }
}

fn parse_port(s: &String) -> (r: Option<u16>)
    ensures
        r == port_of(s@),
{
    match parse_unsigned(s.as_str(), 65535) {
        Some(v) => Some(v as u16),
        None => None,
    }
}

fn parse_count(s: &String) -> (r: Option<usize>)
    ensures
        r == count_of(s@),
{
    match parse_unsigned(s.as_str(), usize::MAX as u64) {
        Some(v) => Some(v as usize),
        None => None,
    }
}

/// Reads the command line `args`, the program name first.
pub fn parse_args(args: &Vec<String>) -> (cmd: CliCommand)
    ensures
        command_for(cmd, texts(args@)),
{
    let ghost av = texts(args@);
    if args.len() < 2 {
        return CliCommand::Usage;
    }
    let port = match parse_port(&args[1]) {
        Some(p) => p,
        None => 9000,
    };
    let flag = String::from_str("--entities");
    let mut peer_port: Option<u16> = None;
    let mut auto_spawn_count: Option<usize> = None;
    let mut unknown_args: Vec<String> = Vec::new();
    let mut i: usize = 2;
    assert(texts(unknown_args@) =~= Seq::<Seq<char>>::empty());
    while i < args.len()
        invariant
            av == texts(args@),
            flag@ == "--entities"@,
            2 <= i <= args.len() + 1,
            scan_args(av, 2, None, None, Seq::empty()) == scan_args(
                av,
                i as int,
                peer_port,
                auto_spawn_count,
                texts(unknown_args@),
            ),
        decreases args.len() + 1 - i,
    {
        if args[i] == flag {
            if i + 1 < args.len() {
                auto_spawn_count = parse_count(&args[i + 1]);
                i = i + 2;
            } else {
                return CliCommand::MissingEntitiesCount { unknown_args };
            }
        } else {
            let candidate = parse_port(&args[i]);
            if candidate.is_some() && peer_port.is_none() {
                peer_port = candidate;
            } else {
                let ghost old_unknown = texts(unknown_args@);
                unknown_args.push(args[i].clone());
                proof {
                    assert(texts(unknown_args@) =~= old_unknown.push(av[i as int]));
                }
            }
            i = i + 1;
        }
    }
    CliCommand::Run(CliConfig { port, peer_port, auto_spawn_count, unknown_args })
}

/// The id of the coordinator that serves on `port`: `coordinator-{port}`.
pub open spec fn coordinator_id_text(port: u16) -> Seq<char> {
    "coordinator-"@ + decimal_spec(port as nat)
}

/// The id of the coordinator that serves on `port`.
pub fn coordinator_id_for_port(port: u16) -> (r: String)
    ensures
        r@ == coordinator_id_text(port),
{
    let mut r = String::from_str("coordinator-");
    let p = decimal(port as u64);
    r.append(p.as_str());
    r
}

/// The coordinator that serves on `port` of this host.
pub fn local_coordinator(port: u16) -> (r: CoordinatorInfo)
    ensures
        r@ == (CoordinatorInfoView {
            coordinator_id: coordinator_id_text(port),
            host: "127.0.0.1"@,
            port,
        }),
{
    CoordinatorInfo {
        coordinator_id: coordinator_id_for_port(port),
        host: String::from_str("127.0.0.1"),
        port,
    }
}

} // verus!
