//! What the command-line tool decides: the lines it prints while it waits for
//! a radio to become ready and then watches its stream, and when it stops.
//! The tool itself (waiting on the session's events, the clock, printing)
//! runs these steps.
use vstd::prelude::*;

use crate::domain::snapshot::DeviceSnapshot;
use crate::session::Event;
use crate::transport::ble::Discovered;
use crate::text::{
    decimal, hex_digits, parse_unsigned, parse_unsigned_spec, push_char, push_decimal, push_hex,
    push_signed_decimal, push_str, signed_decimal, str_eq,
};

verus! {

broadcast use vstd::std_specs::hash::group_hash_axioms;

/// How a wait of `secs` whole seconds is written: "0ns" when it is empty,
/// else the seconds followed by "s".
pub open spec fn window_text(secs: nat) -> Seq<char> {
    if secs == 0 {
        "0ns"@
    } else {
        decimal(secs) + "s"@
    }
}

/// Appends the text of a wait of `secs` seconds.
pub fn push_window(s: &mut String, secs: u64)
    ensures
        final(s)@ == old(s)@ + window_text(secs as nat),
{
    if secs == 0 {
        push_str(s, "0ns");
    } else {
        push_decimal(s, secs);
        push_str(s, "s");
    }
}

/// The line printed once the radio is ready: its node number, names and
/// firmware, and how many nodes and channels it reported.
pub open spec fn connected_text(
    node: u32,
    long_name: Seq<char>,
    short_name: Seq<char>,
    firmware: Seq<char>,
    nodes: nat,
    channels: nat,
) -> Seq<char> {
    "\u{2713} Connected: node "@ + decimal(node as nat) + " \""@ + long_name + "\" ["@ + short_name
        + "] fw "@ + firmware + "\n  nodes (initial): "@ + decimal(nodes)
        + "\n  channels (initial): "@ + decimal(channels)
}

/// The line printed once the radio is ready.
pub fn connected_line(snap: &DeviceSnapshot) -> (r: String)
    ensures
        r@ == connected_text(
            snap.my_node.0,
            snap.long_name@,
            snap.short_name@,
            snap.firmware_version@,
            snap.nodes@.len(),
            snap.channels@.len(),
        ),
{
    let mut s = String::new();
    push_str(&mut s, "\u{2713} Connected: node ");
    push_decimal(&mut s, snap.my_node.0 as u64);
    push_str(&mut s, " \"");
    push_str(&mut s, snap.long_name.as_str());
    push_str(&mut s, "\" [");
    push_str(&mut s, snap.short_name.as_str());
    push_str(&mut s, "] fw ");
    push_str(&mut s, snap.firmware_version.as_str());
    push_str(&mut s, "\n  nodes (initial): ");
    push_decimal(&mut s, snap.nodes.len() as u64);
    push_str(&mut s, "\n  channels (initial): ");
    push_decimal(&mut s, snap.channels.len() as u64);
    s
}

/// The line printed when the watch after readiness ends.
pub open spec fn stream_summary_text(window_secs: nat, nodes: nat, channels: nat) -> Seq<char> {
    "post-ready stream ("@ + window_text(window_secs) + "): +"@ + decimal(nodes)
        + " node updates, +"@ + decimal(channels) + " channel updates"@
}

/// The line printed when the watch after readiness ends.
pub fn stream_summary(window_secs: u64, nodes: usize, channels: usize) -> (r: String)
    ensures
        r@ == stream_summary_text(window_secs as nat, nodes as nat, channels as nat),
{
    let mut s = String::new();
    push_str(&mut s, "post-ready stream (");
    push_window(&mut s, window_secs);
    push_str(&mut s, "): +");
    push_decimal(&mut s, nodes as u64);
    push_str(&mut s, " node updates, +");
    push_decimal(&mut s, channels as u64);
    push_str(&mut s, " channel updates");
    s
}

/// Where a connect run stands.
#[derive(Debug, PartialEq, Eq, Structural)]
pub enum ConnectPhase {
    /// Waiting for the radio to finish its handshake.
    WaitingReady,
    /// Ready; counting the node and channel updates that follow.
    Streaming { nodes: usize, channels: usize },
    /// Done, with the exit status.
    Finished { success: bool },
}

/// What the tool saw since the last step.
#[derive(Debug)]
pub enum ConnectInput {
    /// An event from the session.
    Event(Event),
    /// The phase's time ran out before the tool started waiting again.
    DeadlinePassed,
    /// No event came: the channel closed, or the wait itself timed out.
    Ended,
}

/// A line to print, on standard output or standard error.
#[derive(Debug)]
pub enum CliLine {
    Stdout(String),
    Stderr(String),
}

/// The text of a line and whether it goes to standard error.
pub open spec fn line_view(l: CliLine) -> (bool, Seq<char>) {
    match l {
        CliLine::Stdout(s) => (false, s@),
        CliLine::Stderr(s) => (true, s@),
    }
}

/// One step of a connect run: the next phase and the line to print.
pub struct ConnectStep {
    pub phase: ConnectPhase,
    pub line: Option<CliLine>,
}

/// Adds one to a count, staying at the largest value.
pub open spec fn bumped(n: usize) -> usize {
    if n < usize::MAX {
        (n + 1) as usize
    } else {
        n
    }
}

/// The next phase of a connect run, and the line it prints (stream,
/// text), for a run that has not finished. While waiting: a connecting
/// notice, the ready line (then the count of nodes starts at those the radio
/// reported), an error line, or a failure when the radio drops, the time
/// runs out or the events stop. While watching: node and channel updates
/// are counted, and a drop, an error, or the end of events finishes the run
/// successfully with the summary line.
pub open spec fn connect_step_spec(
    phase: ConnectPhase,
    input: ConnectInput,
    overall_secs: nat,
    stream_secs: nat,
) -> (ConnectPhase, Option<(bool, Seq<char>)>) {
    match phase {
        ConnectPhase::WaitingReady => match input {
            ConnectInput::DeadlinePassed => (
                ConnectPhase::Finished { success: false },
                Some(
                    (
                        true,
                        "timed out waiting for Connected after "@ + window_text(overall_secs),
                    ),
                ),
            ),
            ConnectInput::Ended => (
                ConnectPhase::Finished { success: false },
                Some((true, "event channel closed"@)),
            ),
            ConnectInput::Event(ev) => match ev {
                Event::Connecting => (
                    ConnectPhase::WaitingReady,
                    Some((false, "\u{2026} Connecting"@)),
                ),
                Event::Connected(snap) => (
                    ConnectPhase::Streaming { nodes: snap.nodes@.len() as usize, channels: 0 },
                    Some(
                        (
                            false,
                            connected_text(
                                snap.my_node.0,
                                snap.long_name@,
                                snap.short_name@,
                                snap.firmware_version@,
                                snap.nodes@.len(),
                                snap.channels@.len(),
                            ),
                        ),
                    ),
                ),
                Event::Error(msg) => (ConnectPhase::WaitingReady, Some((true, "error: "@ + msg@))),
                Event::Disconnected => (
                    ConnectPhase::Finished { success: false },
                    Some((true, "disconnected before ready"@)),
                ),
                _ => (ConnectPhase::WaitingReady, None),
            },
        },
        ConnectPhase::Streaming { nodes, channels } => match input {
            ConnectInput::Event(Event::NodeUpdated(_)) => (
                ConnectPhase::Streaming { nodes: bumped(nodes), channels },
                None,
            ),
            ConnectInput::Event(Event::ChannelUpdated(_)) => (
                ConnectPhase::Streaming { nodes, channels: bumped(channels) },
                None,
            ),
            ConnectInput::Event(Event::Disconnected) | ConnectInput::Event(Event::Error(_))
            | ConnectInput::DeadlinePassed | ConnectInput::Ended => (
                ConnectPhase::Finished { success: true },
                Some((false, stream_summary_text(stream_secs, nodes as nat, channels as nat))),
            ),
            ConnectInput::Event(_) => (ConnectPhase::Streaming { nodes, channels }, None),
        },
        ConnectPhase::Finished { success } => (ConnectPhase::Finished { success }, None),
    }
}

fn bump(n: usize) -> (r: usize)
    ensures
        r == bumped(n),
{
    if n < usize::MAX {
        n + 1
    } else {
        n
    }
}

fn err_line(text: &str) -> (r: Option<CliLine>)
    ensures
        r matches Some(CliLine::Stderr(s)) && s@ == text@,
{
    let mut s = String::new();
    push_str(&mut s, text);
    Some(CliLine::Stderr(s))
}

fn out_line(text: &str) -> (r: Option<CliLine>)
    ensures
        r matches Some(CliLine::Stdout(s)) && s@ == text@,
{
    let mut s = String::new();
    push_str(&mut s, text);
    Some(CliLine::Stdout(s))
}

/// One step of a connect run: what to print and where the run goes next.
pub fn connect_step(phase: ConnectPhase, input: ConnectInput, overall_secs: u64, stream_secs: u64) -> (r: ConnectStep)
    requires
        !(phase is Finished),
    ensures
        ({
            let (p, l) = connect_step_spec(phase, input, overall_secs as nat, stream_secs as nat);
            &&& r.phase == p
            &&& match r.line {
                Some(x) => l == Some(line_view(x)),
                None => l is None,
            }
        }),
{
    match phase {
        ConnectPhase::WaitingReady => match input {
            ConnectInput::DeadlinePassed => {
                let mut s = String::new();
                push_str(&mut s, "timed out waiting for Connected after ");
                push_window(&mut s, overall_secs);
                ConnectStep { phase: ConnectPhase::Finished { success: false }, line: Some(CliLine::Stderr(s)) }
            },
            ConnectInput::Ended => ConnectStep {
                phase: ConnectPhase::Finished { success: false },
                line: err_line("event channel closed"),
            },
            ConnectInput::Event(ev) => match ev {
                Event::Connecting => ConnectStep {
                    phase: ConnectPhase::WaitingReady,
                    line: out_line("\u{2026} Connecting"),
                },
                Event::Connected(snap) => {
                    let line = connected_line(&snap);
                    let n = snap.nodes.len();
                    ConnectStep {
                        phase: ConnectPhase::Streaming { nodes: n, channels: 0 },
                        line: Some(CliLine::Stdout(line)),
                    }
                },
                Event::Error(msg) => {
                    let mut s = String::new();
                    push_str(&mut s, "error: ");
                    push_str(&mut s, msg.as_str());
                    ConnectStep { phase: ConnectPhase::WaitingReady, line: Some(CliLine::Stderr(s)) }
                },
                Event::Disconnected => ConnectStep {
                    phase: ConnectPhase::Finished { success: false },
                    line: err_line("disconnected before ready"),
                },
                _ => ConnectStep { phase: ConnectPhase::WaitingReady, line: None },
            },
        },
        ConnectPhase::Streaming { nodes, channels } => match input {
            ConnectInput::Event(Event::NodeUpdated(_)) => ConnectStep {
                phase: ConnectPhase::Streaming { nodes: bump(nodes), channels },
                line: None,
            },
            ConnectInput::Event(Event::ChannelUpdated(_)) => ConnectStep {
                phase: ConnectPhase::Streaming { nodes, channels: bump(channels) },
                line: None,
            },
            ConnectInput::Event(Event::Disconnected) | ConnectInput::Event(Event::Error(_))
            | ConnectInput::DeadlinePassed | ConnectInput::Ended => ConnectStep {
                phase: ConnectPhase::Finished { success: true },
                line: Some(CliLine::Stdout(stream_summary(stream_secs, nodes, channels))),
            },
            ConnectInput::Event(_) => ConnectStep {
                phase: ConnectPhase::Streaming { nodes, channels },
                line: None,
            },
        },
        ConnectPhase::Finished { success } => ConnectStep {
            phase: ConnectPhase::Finished { success },
            line: None,
        },
    }
}

/// The bytes shown for a frame that did not decode: the first 32 as two
/// lower-case hexadecimal digits each, then "…" when there were more.
pub open spec fn hex_preview_text(bytes: Seq<u8>) -> Seq<char> {
    hex_bytes(bytes.take(if bytes.len() < 32 { bytes.len() as int } else { 32 })) + if bytes.len()
        > 32 {
        "\u{2026}"@
    } else {
        Seq::empty()
    }
}

/// Each byte as two lower-case hexadecimal digits.
pub open spec fn hex_bytes(bytes: Seq<u8>) -> Seq<char>
    decreases bytes.len(),
{
    if bytes.len() == 0 {
        Seq::empty()
    } else {
        hex_bytes(bytes.drop_last()) + hex_digits(bytes.last() as nat, 2)
    }
}

/// The bytes shown for a frame that did not decode.
pub fn hex_preview(bytes: &[u8]) -> (r: String)
    ensures
        r@ == hex_preview_text(bytes@),
{
    let take: usize = if bytes.len() < 32 {
        bytes.len()
    } else {
        32
    };
    let mut out = String::new();
    let mut i: usize = 0;
    while i < take
        invariant
            take <= bytes@.len(),
            take == (if bytes@.len() < 32 { bytes@.len() as int } else { 32 }),
            i <= take,
            out@ == hex_bytes(bytes@.take(i as int)),
        decreases take - i,
    {
        push_hex(&mut out, bytes[i] as u64, 2);
        assert(bytes@.take(i as int + 1).drop_last() =~= bytes@.take(i as int));
        i = i + 1;
    }
    if bytes.len() > take {
        push_char(&mut out, '\u{2026}');
    }
    proof {
        reveal_strlit("\u{2026}");
    }
    assert(out@ =~= hex_preview_text(bytes@));
    out
}

/// The usage text.
pub open spec fn usage_spec() -> Seq<char> {
    "usage:\n  mt-cli scan\n  mt-cli connect <peripheral-id>\n  mt-cli pump <peripheral-id>\n\nenv:\n  MT_TIMEOUT_SECS (default 30)\n  MT_STREAM_SECS (pump/connect post-Connected window, default 10)\n  RUST_LOG (e.g. mt=debug,btleplug=debug)"@
}

/// The usage text, printed on standard error when the arguments make no
/// command.
pub fn usage_text() -> (r: String)
    ensures
        r@ == usage_spec(),
{
    let mut s = String::new();
    push_str(
        &mut s,
        "usage:\n  mt-cli scan\n  mt-cli connect <peripheral-id>\n  mt-cli pump <peripheral-id>\n\nenv:\n  MT_TIMEOUT_SECS (default 30)\n  MT_STREAM_SECS (pump/connect post-Connected window, default 10)\n  RUST_LOG (e.g. mt=debug,btleplug=debug)",
    );
    s
}

/// What the command line asks for.
#[derive(Debug)]
pub enum CliCommand {
    Scan,
    Connect(String),
    Pump(String),
    /// No command could be read: print the usage and exit with status 2.
    Usage,
}

/// The command that the arguments (the program's name first) ask for:
/// `scan`; `connect` or `pump` with the peripheral id that follows; anything
/// else, or `connect` or `pump` without an id, asks for the usage.
pub open spec fn command_of(args: Seq<Seq<char>>) -> (u8, Seq<char>) {
    if args.len() < 2 {
        (3, Seq::empty())
    } else if args[1] == "scan"@ {
        (0, Seq::empty())
    } else if (args[1] == "connect"@ || args[1] == "pump"@) && args.len() >= 3 {
        (if args[1] == "connect"@ { 1u8 } else { 2u8 }, args[2])
    } else {
        (3, Seq::empty())
    }
}

/// The kind and argument of a command, in the form `command_of` gives.
pub open spec fn command_view(c: CliCommand) -> (u8, Seq<char>) {
    match c {
        CliCommand::Scan => (0, Seq::empty()),
        CliCommand::Connect(id) => (1, id@),
        CliCommand::Pump(id) => (2, id@),
        CliCommand::Usage => (3, Seq::empty()),
    }
}

/// The command that the arguments ask for.
pub fn parse_command(args: &Vec<String>) -> (r: CliCommand)
    ensures
        command_view(r) == command_of(args@.map_values(|a: String| a@)),
{
    let ghost views = args@.map_values(|a: String| a@);
    if args.len() < 2 {
        return CliCommand::Usage;
    }
    assert(views[1] == args@[1]@);
    let cmd = args[1].as_str();
    if str_eq(cmd, "scan") {
        CliCommand::Scan
    } else if str_eq(cmd, "connect") || str_eq(cmd, "pump") {
        if args.len() < 3 {
            return CliCommand::Usage;
        }
        assert(views[2] == args@[2]@);
        let id = args[2].clone();
        if str_eq(cmd, "connect") {
            CliCommand::Connect(id)
        } else {
            CliCommand::Pump(id)
        }
    } else {
        CliCommand::Usage
    }
}

/// A wait in whole seconds read from a setting: its value when it is an
/// unsigned number, else `default`.
pub open spec fn seconds_setting(value: Option<Seq<char>>, default: u64) -> u64 {
    match value {
        Some(v) => match parse_unsigned_spec(v, u64::MAX as nat) {
            Some(n) => n as u64,
            None => default,
        },
        None => default,
    }
}

/// A wait in whole seconds read from a setting (an environment variable's
/// value, when it is set).
pub fn seconds_from(value: Option<&str>, default: u64) -> (r: u64)
    ensures
        r == seconds_setting(
            match value {
                Some(v) => Some(v@),
                None => None,
            },
            default,
        ),
{
    match value {
        Some(v) => match parse_unsigned(v, u64::MAX) {
            Some(n) => n,
            None => default,
        },
        None => default,
    }
}

/// The line printed for a radio found by a scan: address, name and signal
/// strength separated by tabs, and a tab and "connected" when the system
/// already holds a link to it.
pub open spec fn scan_line_text(d: Discovered) -> Seq<char> {
    d.address@ + "\t"@ + d.name@ + "\t"@ + match d.rssi_dbm {
        Some(r) => signed_decimal(r as int) + " dBm"@,
        None => "? dBm"@,
    } + if d.is_paired {
        "\tconnected"@
    } else {
        Seq::empty()
    }
}

/// The line printed for a radio found by a scan.
pub fn scan_line(d: &Discovered) -> (r: String)
    ensures
        r@ == scan_line_text(*d),
{
    let mut s = String::new();
    push_str(&mut s, d.address.as_str());
    push_str(&mut s, "\t");
    push_str(&mut s, d.name.as_str());
    push_str(&mut s, "\t");
    match d.rssi_dbm {
        Some(r) => {
            push_signed_decimal(&mut s, r as i64);
            push_str(&mut s, " dBm");
        },
        None => push_str(&mut s, "? dBm"),
    }
    if d.is_paired {
        push_str(&mut s, "\tconnected");
    }
    assert(s@ =~= scan_line_text(*d));
    s
}

} // verus!
