//! The debug-proxy commands that attach to a process and let it go again.

use vstd::prelude::*;

verus! {

/// The upper-case hexadecimal digits of `n`, without leading zeros.
pub open spec fn hex_digits(n: nat) -> Seq<char>
    decreases n,
{
    if n < 16 {
        seq!["0123456789ABCDEF"@[n as int]]
    } else {
        hex_digits(n / 16).push("0123456789ABCDEF"@[(n % 16) as int])
    }
}

/// `n` in upper-case hexadecimal, at least two digits wide.
pub open spec fn hex_two(n: nat) -> Seq<char> {
    if n < 16 {
        "0"@ + hex_digits(n)
    } else {
        hex_digits(n)
    }
}

/// The text of the command that attaches to process `pid`.
pub open spec fn attach_command_text(pid: u64) -> Seq<char> {
    "vAttach;"@ + hex_two(pid as nat)
}

/// The text of the command that detaches and lets the process run.
pub open spec fn detach_command_text() -> Seq<char> {
    "D"@
}

fn hex_of(n: u64) -> (r: String)
    ensures
        r@ == hex_digits(n as nat),
    decreases n,
{
    let digits = "0123456789ABCDEF";
    proof {
        reveal_strlit("0123456789ABCDEF");
    }
    let d = (n % 16) as usize;
    let last = digits.substring_char(d, d + 1);
    if n < 16 {
        assert(last@ =~= seq!["0123456789ABCDEF"@[n as int]]);
        String::from_str(last)
    } else {
        let mut s = hex_of(n / 16);
        s.append(last);
        assert(last@ =~= seq!["0123456789ABCDEF"@[(n % 16) as int]]);
        assert(s@ =~= hex_digits(n as nat));
        s
    }
}

/// The command that attaches to `pid`: `vAttach;` and the id in upper-case
/// hexadecimal, at least two digits wide.
pub fn attach_command(pid: u64) -> (r: String)
    ensures
        r@ == attach_command_text(pid),
{
    let mut s = String::from_str("vAttach;");
    if pid < 16 {
        s.append("0");
    }
    let h = hex_of(pid);
    s.append(h.as_str());
    assert(s@ =~= attach_command_text(pid));
    s
}

/// The command that detaches from the process and leaves it running.
pub fn detach_command() -> (r: String)
    ensures
        r@ == detach_command_text(),
{
    String::from_str("D")
}

} // verus!
