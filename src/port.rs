//! Negotiation of a free TCP port with a remote peer over a command channel.
//!
//! The channel itself is driven by the caller; this module builds the single
//! command line that is sent and parses the raw reply that comes back.
use vstd::prelude::*;
use vstd::string::StringExecFns;

verus! {

/// First port of the dynamic range that IANA recommends.
pub const DYNAMIC_PORT_RANGE_START: u16 = 49152;

/// Last port of the dynamic range that IANA recommends.
pub const DYNAMIC_PORT_RANGE_END: u16 = 65535;

/// Ways in which a free-port negotiation fails.
#[derive(Debug, Clone, Copy, PartialEq, Eq, Structural)]
pub enum NegotiationError {
    /// The reply did not begin with a decimal number that fits in 16 bits.
    Parse,
    /// The remote command could not be run or its exit status was not delivered.
    Channel,
}

pub open spec fn is_ascii_digit(b: u8) -> bool {
    48 <= b <= 57
}

/// Number of ASCII digits at the start of `s`.
pub open spec fn leading_digit_count(s: Seq<u8>) -> nat
    decreases s.len(),
{
    if s.len() > 0 && is_ascii_digit(s[0]) {
        1 + leading_digit_count(s.drop_first())
    } else {
        0
    }
}

/// The value of a run of decimal digits, most significant first.
pub open spec fn digits_value(d: Seq<u8>) -> nat
    decreases d.len(),
{
    if d.len() == 0 {
        0
    } else {
        digits_value(d.drop_last()) * 10 + (d.last() - 48) as nat
    }
}

/// The port that a raw reply announces: its maximal leading run of ASCII
/// digits, read as a decimal number, provided the run is not empty and the
/// number fits in 16 bits.
pub open spec fn reply_port(s: Seq<u8>) -> Result<u16, NegotiationError> {
    let d = s.take(leading_digit_count(s) as int);
    if d.len() > 0 && digits_value(d) <= u16::MAX {
        Ok(digits_value(d) as u16)
    } else {
        Err(NegotiationError::Parse)
    }
}

/// Decimal notation of `n`, without leading zeros.
pub open spec fn decimal(n: nat) -> Seq<char>
    decreases n,
{
    let digit = seq!['0', '1', '2', '3', '4', '5', '6', '7', '8', '9'][(n % 10) as int];
    if n < 10 {
        seq![digit]
    } else {
        decimal(n / 10).push(digit)
    }
}

/// The command line that asks the remote peer for a free port in
/// `start..=end`, with the quiet flag that keeps its output to the number.
pub open spec fn free_port_command_text(start: u16, end: u16) -> Seq<char> {
    "qft get-free-port --start-port "@ + decimal(start as nat) + " --end-port "@
        + decimal(end as nat) + " -q"@
}

/// Whether a requested range starts below the recommended dynamic range, in
/// which case the caller is advised, and the query is sent all the same.
pub open spec fn start_below_dynamic_range(start: u16) -> bool {
    start < DYNAMIC_PORT_RANGE_START
}

/// The one-character text of the decimal digit `d`.
fn digit_str(d: u16) -> (r: &'static str)
    requires
        d < 10,
    ensures
        r@ == seq![seq!['0', '1', '2', '3', '4', '5', '6', '7', '8', '9'][d as int]],
{
    match d {
        0 => {
            proof {
                reveal_strlit("0");
            }
            "0"
        },
        1 => {
            proof {
                reveal_strlit("1");
            }
            "1"
        },
        2 => {
            proof {
                reveal_strlit("2");
            }
            "2"
        },
        3 => {
            proof {
                reveal_strlit("3");
            }
            "3"
        },
        4 => {
            proof {
                reveal_strlit("4");
            }
            "4"
        },
        5 => {
            proof {
                reveal_strlit("5");
            }
            "5"
        },
        6 => {
            proof {
                reveal_strlit("6");
            }
            "6"
        },
        7 => {
            proof {
                reveal_strlit("7");
            }
            "7"
        },
        8 => {
            proof {
                reveal_strlit("8");
            }
            "8"
        },
        _ => {
            proof {
                reveal_strlit("9");
            }
            "9"
        },
    }
}

/// `n` in decimal, without leading zeros.
fn decimal_string(n: u16) -> (r: String)
    ensures
        r@ == decimal(n as nat),
    decreases n,
{
    if n < 10 {
        let r = String::from_str(digit_str(n));
        assert(r@ =~= decimal(n as nat));
        r
    } else {
        let mut r = decimal_string(n / 10);
        r.append(digit_str(n % 10));
        assert(r@ =~= decimal(n as nat));
        r
    }
}

/// Builds the command line sent over the remote-execution channel.
pub fn free_port_command(start_port: u16, end_port: u16) -> (r: String)
    ensures
        r@ == free_port_command_text(start_port, end_port),
{
    let mut cmd = String::from_str("qft get-free-port --start-port ");
    let start = decimal_string(start_port);
    cmd.append(start.as_str());
    cmd.append(" --end-port ");
    let end = decimal_string(end_port);
    cmd.append(end.as_str());
    cmd.append(" -q");
    cmd
}

/// Whether `start_port` lies below the recommended dynamic range. Such a
/// start only earns an advisory: the query goes out unchanged.
pub fn needs_port_advisory(start_port: u16) -> (r: bool)
    ensures
        r == start_below_dynamic_range(start_port),
{
    start_port < DYNAMIC_PORT_RANGE_START
}

proof fn lemma_leading_digits_split(s: Seq<u8>, i: int)
    requires
        0 <= i <= s.len(),
        forall|j: int| 0 <= j < i ==> is_ascii_digit(#[trigger] s[j]),
    ensures
        leading_digit_count(s) == i + leading_digit_count(s.skip(i)),
    decreases i,
{
    if i > 0 {
        let t = s.drop_first();
        assert forall|j: int| 0 <= j < i - 1 implies is_ascii_digit(#[trigger] t[j]) by {
            assert(t[j] == s[j + 1]);
        }
        lemma_leading_digits_split(t, i - 1);
        assert(t.skip(i - 1) =~= s.skip(i));
    } else {
        assert(s.skip(0) =~= s);
    }
}

proof fn lemma_digits_value_step(s: Seq<u8>, i: int)
    requires
        0 <= i < s.len(),
    ensures
        digits_value(s.take(i + 1)) == digits_value(s.take(i)) * 10 + (s[i] - 48) as nat,
{
    assert(s.take(i + 1).drop_last() =~= s.take(i));
}

/// Reads the free port from the raw standard output of the remote query.
///
/// Only the maximal leading run of ASCII digits counts; whatever follows it is
/// ignored. An empty run, or one whose value exceeds 65535, is a parse error.
pub fn parse_free_port(raw: &[u8]) -> (r: Result<u16, NegotiationError>)
    ensures
        r == reply_port(raw@),
{
    let ghost s = raw@;
    let mut i: usize = 0;
    // the value read so far, held at 65536 once it is out of range
    let mut acc: u32 = 0;
    while i < raw.len() && 48 <= raw[i] && raw[i] <= 57
        invariant
            0 <= i <= s.len(),
            s == raw@,
            forall|j: int| 0 <= j < i ==> is_ascii_digit(#[trigger] s[j]),
            acc as nat == if digits_value(s.take(i as int)) <= 65535 {
                digits_value(s.take(i as int))
            } else {
                65536
            },
        decreases raw.len() - i,
    {
        proof {
            lemma_digits_value_step(s, i as int);
        }
        let d = (raw[i] - 48) as u32;
        let next = acc * 10 + d;
        acc = if next > 65535 { 65536 } else { next };
        proof {
            let v = digits_value(s.take(i as int));
            assert(v > 65535 ==> v * 10 + d > 65535) by (nonlinear_arith);
        }
        i = i + 1;
    }
    proof {
        lemma_leading_digits_split(s, i as int);
        if i < s.len() {
            assert(!is_ascii_digit(s.skip(i as int)[0]));
        }
        assert(leading_digit_count(s.skip(i as int)) == 0);
    }
    if i > 0 && acc <= 65535 {
        Ok(acc as u16)
    } else {
        Err(NegotiationError::Parse)
    }
}

} // verus!
