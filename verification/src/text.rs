use vstd::prelude::*;
use crate::Game;

verus! {

/// The decimal digit character for `d`.
pub open spec fn dec_digit(d: int) -> char {
    if d == 0 {
        '0'
    } else if d == 1 {
        '1'
    } else if d == 2 {
        '2'
    } else if d == 3 {
        '3'
    } else if d == 4 {
        '4'
    } else if d == 5 {
        '5'
    } else if d == 6 {
        '6'
    } else if d == 7 {
        '7'
    } else if d == 8 {
        '8'
    } else {
        '9'
    }
}

/// The decimal rendering of `n`, without leading zeros.
pub open spec fn dec_seq(n: nat) -> Seq<char>
    decreases n,
{
    if n < 10 {
        seq![dec_digit(n as int)]
    } else {
        dec_seq(n / 10).push(dec_digit((n % 10) as int))
    }
}

/// The decimal rendering of `n`, zero-padded to at least two digits.
pub open spec fn dec2_seq(n: nat) -> Seq<char> {
    if n < 10 {
        seq!['0'] + dec_seq(n)
    } else {
        dec_seq(n)
    }
}

/// The decimal rendering of `n`, zero-padded to at least three digits.
pub open spec fn dec3_seq(n: nat) -> Seq<char> {
    if n < 100 {
        seq!['0'] + dec2_seq(n)
    } else {
        dec_seq(n)
    }
}

fn digit_str(d: u64) -> (r: &'static str)
    requires
        d < 10,
    ensures
        r@ == seq![dec_digit(d as int)],
{
    let digits = "0123456789";
    let d2: usize = d as usize;
    proof {
        reveal_strlit("0123456789");
    }
    let r = digits.substring_char(d2, d2 + 1);
    proof {
        assert(r@ =~= seq![dec_digit(d as int)]);
    }
    r
}

pub fn dec_string(n: u64) -> (r: String)
    ensures
        r@ == dec_seq(n as nat),
    decreases n,
{
    if n < 10 {
        String::from_str(digit_str(n))
    } else {
        let mut r = dec_string(n / 10);
        r.append(digit_str(n % 10));
        proof {
            assert(r@ =~= dec_seq(n as nat));
        }
        r
    }
}

pub fn dec2_string(n: u64) -> (r: String)
    ensures
        r@ == dec2_seq(n as nat),
{
    if n < 10 {
        let mut r = String::from_str("0");
        r.append(digit_str(n));
        proof {
            reveal_strlit("0");
            assert(r@ =~= dec2_seq(n as nat));
        }
        r
    } else {
        dec_string(n)
    }
}

pub fn dec3_string(n: u64) -> (r: String)
    ensures
        r@ == dec3_seq(n as nat),
{
    if n < 100 {
        let mut r = String::from_str("0");
        let tail = dec2_string(n);
        r.append(tail.as_str());
        proof {
            reveal_strlit("0");
            assert(r@ =~= dec3_seq(n as nat));
        }
        r
    } else {
        dec_string(n)
    }
}

/// Elapsed time rendered as zero-padded hours, minutes and seconds, from a
/// count of seconds.
pub open spec fn hms_seq(t: nat) -> Seq<char> {
    dec2_seq(t / 3600) + ":"@ + dec2_seq((t / 60) % 60) + ":"@ + dec2_seq(t % 60)
}

pub fn hms_string(t: u64) -> (r: String)
    ensures
        r@ == hms_seq(t as nat),
{
    let mut r = dec2_string(t / 3600);
    r.append(":");
    let m = dec2_string((t / 60) % 60);
    r.append(m.as_str());
    r.append(":");
    let s = dec2_string(t % 60);
    r.append(s.as_str());
    r
}

/// Whole seconds elapsed between two millisecond timestamps; a `now` before
/// `saved` counts as no time elapsed.
pub open spec fn elapsed_secs(now: u64, saved: u64) -> nat {
    if now >= saved {
        ((now - saved) / 1000) as nat
    } else {
        0
    }
}

/// How long ago a snapshot was captured, as hours, minutes and seconds.
pub fn elapsed_display(now: u64, saved: u64) -> (r: String)
    ensures
        r@ == hms_seq(elapsed_secs(now, saved)),
{
    if now >= saved {
        hms_string((now - saved) / 1000)
    } else {
        hms_string(0)
    }
}

/// The transient message shown after a snapshot is restored: the entry's
/// index (at least three digits) and the game's name.
pub open spec fn loaded_msg_seq(idx: nat, g: Game) -> Seq<char> {
    "Loaded #"@ + dec3_seq(idx) + " ("@ + g.name_seq() + ")"@
}

pub fn loaded_msg_string(idx: usize, g: Game) -> (r: String)
    ensures
        r@ == loaded_msg_seq(idx as nat, g),
{
    let mut r = String::from_str("Loaded #");
    let d = dec3_string(idx as u64);
    r.append(d.as_str());
    r.append(" (");
    let name = g.name();
    r.append(name.as_str());
    r.append(")");
    r
}

} // verus!
