//! Naming of the data-plane pipe: a path unique to the process and to the
//! moment it was made.

use vstd::prelude::*;

use crate::numtext::{decimal, lower_hex, u32_decimal, u64_lower_hex};

verus! {

/// Multiplier of the seed mixing (an odd 64-bit constant).
pub const SEED_MULTIPLIER: u64 = 0x517cc1b727220a95;

/// The pseudo-random part of a pipe name made from a clock reading in
/// nanoseconds and the process ID: `nanos * SEED_MULTIPLIER` (wrapping)
/// xor `pid`.
pub fn mix_seed(nanos: u64, pid: u32) -> (r: u64)
    ensures
        r == (((nanos as nat * SEED_MULTIPLIER as nat) % 0x1_0000_0000_0000_0000) as u64) ^ (pid as u64),
{
    nanos.wrapping_mul(SEED_MULTIPLIER) ^ (pid as u64)
}

/// `/tmp/procwire-{pid}-{rand:x}.sock`
pub open spec fn unix_pipe_path_text(pid: u32, rand: u64) -> Seq<char> {
    "/tmp/procwire-"@ + decimal(pid as nat) + "-"@ + lower_hex(rand as nat) + ".sock"@
}

/// `\\.\pipe\procwire-{pid}-{rand:x}`
pub open spec fn windows_pipe_path_text(pid: u32, rand: u64) -> Seq<char> {
    "\\\\.\\pipe\\procwire-"@ + decimal(pid as nat) + "-"@ + lower_hex(rand as nat)
}

/// The Unix-domain socket path for process `pid` and random part `rand`.
pub fn unix_pipe_path(pid: u32, rand: u64) -> (r: String)
    ensures
        r@ == unix_pipe_path_text(pid, rand),
{
    let mut s = String::from_str("/tmp/procwire-");
    let p = u32_decimal(pid);
    s.append(p.as_str());
    s.append("-");
    let h = u64_lower_hex(rand);
    s.append(h.as_str());
    s.append(".sock");
    s
}

/// The named-pipe path for process `pid` and random part `rand`.
pub fn windows_pipe_path(pid: u32, rand: u64) -> (r: String)
    ensures
        r@ == windows_pipe_path_text(pid, rand),
{
    let mut s = String::from_str("\\\\.\\pipe\\procwire-");
    let p = u32_decimal(pid);
    s.append(p.as_str());
    s.append("-");
    let h = u64_lower_hex(rand);
    s.append(h.as_str());
    s
}

} // verus!
