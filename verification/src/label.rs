//! Human-readable scenario names, built and proved character by character.

use vstd::prelude::*;
use vstd::string::StringExecFns;

use crate::types::{ChannelKind, ScenarioConfig};

verus! {

/// The character for one decimal digit.
pub open spec fn digit_char(d: int) -> char {
    if d == 0 {
        '0'
    } else if d == 1 {
        '1'
    } else if d == 2 {
        '2'
    } else if d == 3 {
        '3'
    } else if d == 4 {
        '4'
    } else if d == 5 {
        '5'
    } else if d == 6 {
        '6'
    } else if d == 7 {
        '7'
    } else if d == 8 {
        '8'
    } else {
        '9'
    }
}

/// The decimal rendering of a natural number, most significant digit first.
pub open spec fn dec_str(n: nat) -> Seq<char>
    decreases n,
{
    if n < 10 {
        seq![digit_char(n as int)]
    } else {
        dec_str(n / 10).push(digit_char((n % 10) as int))
    }
}

fn digit_str(d: u32) -> (r: &'static str)
    requires
        d < 10,
    ensures
        r@ == seq![digit_char(d as int)],
{
    proof {
        reveal_strlit("0");
        reveal_strlit("1");
        reveal_strlit("2");
        reveal_strlit("3");
        reveal_strlit("4");
        reveal_strlit("5");
        reveal_strlit("6");
        reveal_strlit("7");
        reveal_strlit("8");
        reveal_strlit("9");
    }
    let r = match d {
        0 => "0",
        1 => "1",
        2 => "2",
        3 => "3",
        4 => "4",
        5 => "5",
        6 => "6",
        7 => "7",
        8 => "8",
        _ => "9",
    };
    proof {
        assert(r@ =~= seq![digit_char(d as int)]);
    }
    r
}

/// Renders `n` in decimal.
pub fn fmt_u32(n: u32) -> (s: String)
    ensures
        s@ == dec_str(n as nat),
    decreases n,
{
    if n < 10 {
        let d = digit_str(n);
        d.to_owned()
    } else {
        let mut s = fmt_u32(n / 10);
        let d = digit_str(n % 10);
        s.append(d);
        proof {
            assert(s@ =~= dec_str(n as nat));
        }
        s
    }
}

/// The label fragment naming a backend kind.
pub open spec fn kind_label(k: ChannelKind) -> Seq<char> {
    match k {
        ChannelKind::StdMpsc => "std-channel"@,
        ChannelKind::CrossbeamUnbounded => "crossbeam-channel"@,
        ChannelKind::CrossbeamBounded(_) => "crossbeam-channel-bounded"@,
    }
}

/// The human-readable name of a scenario: backend kind, producer count,
/// message count per producer, and payload size.
pub open spec fn scenario_label_spec(cfg: ScenarioConfig) -> Seq<char> {
    kind_label(cfg.channel_kind) + "-"@ + dec_str(cfg.producer_count as nat) + "-thread-"@
        + dec_str(cfg.messages_per_producer as nat) + "-itemspre-"@ + dec_str(
        cfg.payload_size as nat,
    ) + "-payloadsize"@
}

fn kind_label_str(k: &ChannelKind) -> (r: &'static str)
    ensures
        r@ == kind_label(*k),
{
    match k {
        ChannelKind::StdMpsc => "std-channel",
        ChannelKind::CrossbeamUnbounded => "crossbeam-channel",
        ChannelKind::CrossbeamBounded(_) => "crossbeam-channel-bounded",
    }
}

/// Builds the scenario's label.
pub fn scenario_label(cfg: &ScenarioConfig) -> (s: String)
    ensures
        s@ == scenario_label_spec(*cfg),
{
    let mut s = kind_label_str(&cfg.channel_kind).to_owned();
    s.append("-");
    let p = fmt_u32(cfg.producer_count);
    s.append(p.as_str());
    s.append("-thread-");
    let m = fmt_u32(cfg.messages_per_producer);
    s.append(m.as_str());
    s.append("-itemspre-");
    let b = fmt_u32(cfg.payload_size);
    s.append(b.as_str());
    s.append("-payloadsize");
    proof {
        assert(s@ =~= scenario_label_spec(*cfg));
    }
    s
}

} // verus!
