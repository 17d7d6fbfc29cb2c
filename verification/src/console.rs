//! Which host file descriptors back the ports of the virtio console, and how
//! a host terminal is switched to raw mode while the guest owns it.

use vstd::prelude::*;
use vstd::string::*;
use crate::text::{format_radix, radix_digits};

verus! {

/// Where a port's output goes.
#[derive(Clone, Copy, Debug, PartialEq, Eq, Structural)]
pub enum PortOutput {
    /// A duplicate of this descriptor (the log when it cannot be duplicated).
    Fd(i32),
    /// The configured console output file.
    File,
}

/// How one console port is wired.
#[derive(Clone, Debug, PartialEq, Eq)]
pub struct PortPlan {
    /// Port name; `None` for the console port itself.
    pub name: Option<String>,
    /// Descriptor duplicated for input, if any.
    pub input_fd: Option<i32>,
    pub output: Option<PortOutput>,
    /// Whether the port reports a (fixed-size) terminal.
    pub terminal: bool,
}

/// A port requested explicitly.
#[derive(Clone, Debug, PartialEq, Eq)]
pub enum PortConfig {
    /// A terminal port reading and writing one descriptor.
    Tty { name: String, tty_fd: i32 },
    /// A plain port with separate input and output descriptors.
    InOut { name: String, input_fd: i32, output_fd: i32 },
}

pub open spec fn fd_if_valid(fd: i32) -> Option<i32> {
    if fd >= 0 {
        Some(fd)
    } else {
        None
    }
}

fn fd_if_valid_exec(fd: i32) -> (r: Option<i32>)
    ensures
        r == fd_if_valid(fd),
{
    if fd >= 0 {
        Some(fd)
    } else {
        None
    }
}

/// The single port of an automatically configured console. The implicit
/// console writes to the configured output file when there is one and the
/// implicit console is not disabled, reading standard input. Otherwise it
/// uses the configured descriptors (standard input and output by default),
/// each only when non-negative.
pub fn autoconfigure_console_ports(has_console_output: bool, disable_implicit_console: bool, creating_implicit_console: bool, fds: Option<(i32, i32)>) -> (ports: Vec<PortPlan>)
    ensures
        ports@.len() == 1,
        has_console_output && !disable_implicit_console && creating_implicit_console ==> ports@[0]
            == (PortPlan {
            name: None,
            input_fd: Some(0),
            output: Some(PortOutput::File),
            terminal: true,
        }),
        !(has_console_output && !disable_implicit_console && creating_implicit_console) ==> {
            let (i, o) = match fds {
                Some(p) => p,
                None => (0i32, 1i32),
            };
            ports@[0] == (PortPlan {
                name: None,
                input_fd: fd_if_valid(i),
                output: match fd_if_valid(o) {
                    Some(f) => Some(PortOutput::Fd(f)),
                    None => None,
                },
                terminal: true,
            })
        },
{
    let mut ports: Vec<PortPlan> = Vec::new();
    if has_console_output && !disable_implicit_console && creating_implicit_console {
        ports.push(
            PortPlan { name: None, input_fd: Some(0), output: Some(PortOutput::File), terminal: true },
        );
        return ports;
    }
    let (input_fd, output_fd) = match fds {
        Some(p) => p,
        None => (0i32, 1i32),
    };
    let output = match fd_if_valid_exec(output_fd) {
        Some(f) => Some(PortOutput::Fd(f)),
        None => None,
    };
    ports.push(
        PortPlan { name: None, input_fd: fd_if_valid_exec(input_fd), output, terminal: true },
    );
    ports
}

pub open spec fn explicit_port_spec(c: PortConfig) -> PortPlan {
    match c {
        PortConfig::Tty { name, tty_fd } => PortPlan {
            name: Some(name),
            input_fd: fd_if_valid(tty_fd),
            output: match fd_if_valid(tty_fd) {
                Some(f) => Some(PortOutput::Fd(f)),
                None => None,
            },
            terminal: true,
        },
        PortConfig::InOut { name, input_fd, output_fd } => PortPlan {
            name: Some(name),
            input_fd: fd_if_valid(input_fd),
            output: match fd_if_valid(output_fd) {
                Some(f) => Some(PortOutput::Fd(f)),
                None => None,
            },
            terminal: false,
        },
    }
}

/// One port per requested port, in order: a terminal port uses its
/// descriptor both ways and reports a terminal; a plain port uses its input
/// and output descriptors; a negative descriptor leaves that side absent.
pub fn create_explicit_ports(port_configs: &Vec<PortConfig>) -> (ports: Vec<PortPlan>)
    ensures
        ports@.len() == port_configs@.len(),
        forall|i: int|
            0 <= i < ports@.len() ==> #[trigger] ports@[i] == explicit_port_spec(port_configs@[i]),
{
    let mut ports: Vec<PortPlan> = Vec::new();
    let mut i: usize = 0;
    while i < port_configs.len()
        invariant
            i <= port_configs@.len(),
            ports@.len() == i,
            forall|j: int|
                0 <= j < i ==> #[trigger] ports@[j] == explicit_port_spec(port_configs@[j]),
        decreases port_configs@.len() - i,
    {
        let plan = match &port_configs[i] {
            PortConfig::Tty { name, tty_fd } => {
                let output = match fd_if_valid_exec(*tty_fd) {
                    Some(f) => Some(PortOutput::Fd(f)),
                    None => None,
                };
                PortPlan {
                    name: Some(name.clone()),
                    input_fd: fd_if_valid_exec(*tty_fd),
                    output,
                    terminal: true,
                }
            },
            PortConfig::InOut { name, input_fd, output_fd } => {
                let output = match fd_if_valid_exec(*output_fd) {
                    Some(f) => Some(PortOutput::Fd(f)),
                    None => None,
                };
                PortPlan {
                    name: Some(name.clone()),
                    input_fd: fd_if_valid_exec(*input_fd),
                    output,
                    terminal: false,
                }
            },
        };
        ports.push(plan);
        i = i + 1;
    }
    ports
}

/// MMIO device ID of the console numbered `id_number`: "hvc" and the number.
pub fn console_device_id(id_number: u32) -> (s: String)
    ensures
        s@ == "hvc"@ + radix_digits(id_number as nat, 10),
{
    let mut s = String::from_str("hvc");
    let n = format_radix(id_number as u64, 10, 0);
    s.append(n.as_str());
    s
}

/// Terminal local-mode flags (termios `c_lflag`) that raw mode clears.
pub const ISIG: u32 = 0x1;

pub const ICANON: u32 = 0x2;

pub const ECHO: u32 = 0x8;

pub open spec fn raw_mode_flags_spec(local_flags: u32, handle_signals_by_terminal: bool) -> u32 {
    if handle_signals_by_terminal {
        local_flags & !(ECHO | ICANON)
    } else {
        local_flags & !(ECHO | ICANON | ISIG)
    }
}

/// The local-mode flags of a terminal in raw mode: echo and canonical
/// input off, and signal keys off unless the terminal keeps handling them.
pub fn term_raw_mode_flags(local_flags: u32, handle_signals_by_terminal: bool) -> (f: u32)
    ensures
        f == raw_mode_flags_spec(local_flags, handle_signals_by_terminal),
{
    let mut mask = ECHO | ICANON;
    if !handle_signals_by_terminal {
        mask = mask | ISIG;
    }
    local_flags & !mask
}

/// Raw mode leaves every flag other than echo, canonical input and (when
/// cleared) signals as it was, and clears those.
pub proof fn lemma_raw_mode_flags(local_flags: u32, handle_signals_by_terminal: bool)
    ensures
        raw_mode_flags_spec(local_flags, handle_signals_by_terminal) & (ECHO | ICANON) == 0,
        !handle_signals_by_terminal ==> raw_mode_flags_spec(local_flags, false) & ISIG == 0,
        handle_signals_by_terminal ==> raw_mode_flags_spec(local_flags, true) & ISIG
            == local_flags & ISIG,
        raw_mode_flags_spec(local_flags, handle_signals_by_terminal) & !(ECHO | ICANON | ISIG)
            == local_flags & !(ECHO | ICANON | ISIG),
{
    assert(((local_flags & !(0x8u32 | 0x2u32)) & (0x8u32 | 0x2u32) == 0) && ((local_flags & !(0x8u32
        | 0x2u32 | 0x1u32)) & (0x8u32 | 0x2u32) == 0) && ((local_flags & !(0x8u32 | 0x2u32 | 0x1u32))
        & 0x1u32 == 0) && ((local_flags & !(0x8u32 | 0x2u32)) & 0x1u32 == local_flags & 0x1u32) && ((
    local_flags & !(0x8u32 | 0x2u32)) & !(0x8u32 | 0x2u32 | 0x1u32) == local_flags & !(0x8u32 | 0x2u32
        | 0x1u32)) && ((local_flags & !(0x8u32 | 0x2u32 | 0x1u32)) & !(0x8u32 | 0x2u32 | 0x1u32)
        == local_flags & !(0x8u32 | 0x2u32 | 0x1u32))) by (bit_vector);
}

/// Raw-mode flags to set on the guest's terminal, if a terminal is attached
/// (`term_local_flags` holds its current local-mode flags). The caller
/// keeps the old flags to restore when the VM exits.
pub fn setup_terminal_raw_mode(term_local_flags: Option<u32>, handle_signals_by_terminal: bool) -> (r: Option<u32>)
    ensures
        r == (match term_local_flags {
            Some(f) => Some(raw_mode_flags_spec(f, handle_signals_by_terminal)),
            None => None,
        }),
{
    match term_local_flags {
        Some(f) => Some(term_raw_mode_flags(f, handle_signals_by_terminal)),
        None => None,
    }
}

} // verus!
