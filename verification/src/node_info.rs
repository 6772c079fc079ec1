//! The worker node's registration record, and the pure parts of assembling
//! it: composing the node id and name, and deriving the advertised compute
//! power. Sampling the machine (CPU count, memory, hostname, clock) is I/O
//! and happens outside; this module turns the sampled facts into the record.

use vstd::prelude::*;
use vstd::string::StringExecFns;

verus! {

/// What the node reports about itself when it registers.
pub struct NodeInfo {
    pub node_id: String,
    pub username: String,
    pub platform: String,
    pub cpu_cores: usize,
    pub memory_total: u64,
    pub memory_free: u64,
    pub compute_power: usize,
}

/// The decimal digit character for `d`.
pub open spec fn dec_digit(d: nat) -> char
    recommends
        d < 10,
{
    if d == 0 {
        '0'
    } else if d == 1 {
        '1'
    } else if d == 2 {
        '2'
    } else if d == 3 {
        '3'
    } else if d == 4 {
        '4'
    } else if d == 5 {
        '5'
    } else if d == 6 {
        '6'
    } else if d == 7 {
        '7'
    } else if d == 8 {
        '8'
    } else {
        '9'
    }
}

/// The decimal rendering of `n`, most significant digit first, no sign and
/// no leading zeros (a single `'0'` for zero).
pub open spec fn dec_str(n: nat) -> Seq<char>
    decreases n,
{
    if n < 10 {
        seq![dec_digit(n)]
    } else {
        dec_str(n / 10).push(dec_digit(n % 10))
    }
}

/// The one-character string for a single decimal digit.
fn digit_str(d: u64) -> (r: &'static str)
    requires
        d < 10,
    ensures
        r@ =~= seq![dec_digit(d as nat)],
{
    proof {
        reveal_strlit("0");
        reveal_strlit("1");
        reveal_strlit("2");
        reveal_strlit("3");
        reveal_strlit("4");
        reveal_strlit("5");
        reveal_strlit("6");
        reveal_strlit("7");
        reveal_strlit("8");
        reveal_strlit("9");
    }
    if d == 0 {
        "0"
    } else if d == 1 {
        "1"
    } else if d == 2 {
        "2"
    } else if d == 3 {
        "3"
    } else if d == 4 {
        "4"
    } else if d == 5 {
        "5"
    } else if d == 6 {
        "6"
    } else if d == 7 {
        "7"
    } else if d == 8 {
        "8"
    } else {
        "9"
    }
}

/// Renders `n` in decimal.
pub fn u64_to_dec(n: u64) -> (s: String)
    ensures
        s@ == dec_str(n as nat),
    decreases n,
{
    if n < 10 {
        String::from_str(digit_str(n))
    } else {
        proof {
            assert(n / 10 < n) by (nonlinear_arith)
                requires
                    n >= 10,
            ;
        }
        let mut s = u64_to_dec(n / 10);
        s.append(digit_str(n % 10));
        proof {
            assert(s@ =~= dec_str(n as nat));
        }
        s
    }
}

/// The node id the agent registers under: `tauri-<host>-<timestamp>`.
pub fn compose_node_id(host: &str, timestamp: u64) -> (r: String)
    ensures
        r@ == "tauri-"@ + host@ + "-"@ + dec_str(timestamp as nat),
{
    let mut s = String::from_str("tauri-");
    s.append(host);
    s.append("-");
    let ts = u64_to_dec(timestamp);
    s.append(ts.as_str());
    proof {
        assert(s@ =~= "tauri-"@ + host@ + "-"@ + dec_str(timestamp as nat));
    }
    s
}

/// The display name the node registers under: `<host>-<platform>`.
pub fn compose_node_name(host: &str, platform: &str) -> (r: String)
    ensures
        r@ == host@ + "-"@ + platform@,
{
    let mut s = String::from_str(host);
    s.append("-");
    s.append(platform);
    proof {
        assert(s@ =~= host@ + "-"@ + platform@);
    }
    s
}

/// Builds the registration record from sampled machine facts. The id and
/// username stay empty for the caller to fill in; the advertised compute
/// power is one hundred units per core.
pub fn build_node_info(
    platform: String,
    cpu_cores: usize,
    memory_total: u64,
    memory_free: u64,
) -> (info: NodeInfo)
    requires
        cpu_cores <= usize::MAX / 100,
    ensures
        info.node_id@ == Seq::<char>::empty(),
        info.username@ == Seq::<char>::empty(),
        info.platform == platform,
        info.cpu_cores == cpu_cores,
        info.memory_total == memory_total,
        info.memory_free == memory_free,
        info.compute_power == cpu_cores * 100,
{
    proof {
        assert(cpu_cores * 100 <= usize::MAX) by (nonlinear_arith)
            requires
                cpu_cores <= usize::MAX / 100,
        ;
    }
    NodeInfo {
        node_id: String::new(),
        username: String::new(),
        platform,
        cpu_cores,
        memory_total,
        memory_free,
        compute_power: cpu_cores * 100,
    }
}

} // verus!
