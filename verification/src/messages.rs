use vstd::prelude::*;
use vstd::string::StringExecFns;

verus! {

/// The character of one decimal digit.
pub open spec fn digit_char(d: nat) -> char {
    if d == 0 {
        '0'
    } else if d == 1 {
        '1'
    } else if d == 2 {
        '2'
    } else if d == 3 {
        '3'
    } else if d == 4 {
        '4'
    } else if d == 5 {
        '5'
    } else if d == 6 {
        '6'
    } else if d == 7 {
        '7'
    } else if d == 8 {
        '8'
    } else {
        '9'
    }
}

/// The decimal rendering of a number, most significant digit first, without
/// leading zeros.
pub open spec fn dec_of(n: nat) -> Seq<char>
    decreases n,
{
    if n < 10 {
        seq![digit_char(n)]
    } else {
        dec_of(n / 10) + seq![digit_char(n % 10)]
    }
}

/// The normalized [0, 1] scalar of a percentage, rendered with two decimals,
/// as the confirmation messages report it.
pub open spec fn norm_of(p: nat) -> Seq<char>
    recommends
        p <= 100,
{
    if p == 100 {
        "1.00"@
    } else {
        seq!['0', '.', digit_char(p / 10), digit_char(p % 10)]
    }
}

/// The benign reply when a master write finds no session at all.
pub open spec fn no_master_msg() -> Seq<char> {
    "No master session found"@
}

/// The confirmation for a master volume write.
pub open spec fn master_volume_msg(p: nat) -> Seq<char> {
    "Master volume set to "@ + dec_of(p) + "% (normalized: "@ + norm_of(p) + ")"@
}

/// The confirmation for a master mute write.
pub open spec fn mute_msg(m: bool) -> Seq<char> {
    "Master volume muted: "@ + if m {
        "true"@
    } else {
        "false"@
    }
}

/// The confirmation for a per-application volume write.
pub open spec fn app_volume_msg(name: Seq<char>, p: nat) -> Seq<char> {
    "Volume for '"@ + name + "' set to "@ + dec_of(p) + "% (normalized: "@ + norm_of(p)
        + ")"@
}

/// The benign reply when no session path contains the requested name.
pub open spec fn not_found_msg(name: Seq<char>) -> Seq<char> {
    "Could not find an application named '"@ + name + "'"@
}

/// One decimal digit as a string slice.
fn digit_str(d: u8) -> (r: &'static str)
    requires
        d < 10,
    ensures
        r@ == seq![digit_char(d as nat)],
{
    if d == 0 {
        proof {
            reveal_strlit("0");
            assert("0"@ =~= seq![digit_char(0)]);
        }
        "0"
    } else if d == 1 {
        proof {
            reveal_strlit("1");
            assert("1"@ =~= seq![digit_char(1)]);
        }
        "1"
    } else if d == 2 {
        proof {
            reveal_strlit("2");
            assert("2"@ =~= seq![digit_char(2)]);
        }
        "2"
    } else if d == 3 {
        proof {
            reveal_strlit("3");
            assert("3"@ =~= seq![digit_char(3)]);
        }
        "3"
    } else if d == 4 {
        proof {
            reveal_strlit("4");
            assert("4"@ =~= seq![digit_char(4)]);
        }
        "4"
    } else if d == 5 {
        proof {
            reveal_strlit("5");
            assert("5"@ =~= seq![digit_char(5)]);
        }
        "5"
    } else if d == 6 {
        proof {
            reveal_strlit("6");
            assert("6"@ =~= seq![digit_char(6)]);
        }
        "6"
    } else if d == 7 {
        proof {
            reveal_strlit("7");
            assert("7"@ =~= seq![digit_char(7)]);
        }
        "7"
    } else if d == 8 {
        proof {
            reveal_strlit("8");
            assert("8"@ =~= seq![digit_char(8)]);
        }
        "8"
    } else {
        proof {
            reveal_strlit("9");
            assert("9"@ =~= seq![digit_char(d as nat)]);
        }
        "9"
    }
}

/// Renders a number in decimal.
fn dec_string(n: u8) -> (r: String)
    ensures
        r@ == dec_of(n as nat),
    decreases n,
{
    if n < 10 {
        String::from_str(digit_str(n))
    } else {
        let mut s = dec_string(n / 10);
        s.append(digit_str(n % 10));
        s
    }
}

/// Renders the normalized scalar of a percentage with two decimals.
fn norm_string(percent: u8) -> (r: String)
    requires
        percent <= 100,
    ensures
        r@ == norm_of(percent as nat),
{
    if percent == 100 {
        String::from_str("1.00")
    } else {
        let mut s = String::from_str("0.");
        s.append(digit_str(percent / 10));
        s.append(digit_str(percent % 10));
        proof {
            reveal_strlit("0.");
            assert(s@ =~= norm_of(percent as nat));
        }
        s
    }
}

/// Builds the benign reply for a master write on an empty snapshot.
pub fn no_master_message() -> (r: String)
    ensures
        r@ == no_master_msg(),
{
    String::from_str("No master session found")
}

/// Builds the confirmation for a master volume write.
pub fn master_volume_message(percent: u8) -> (r: String)
    requires
        percent <= 100,
    ensures
        r@ == master_volume_msg(percent as nat),
{
    let mut s = String::from_str("Master volume set to ");
    let d = dec_string(percent);
    s.append(d.as_str());
    s.append("% (normalized: ");
    let v = norm_string(percent);
    s.append(v.as_str());
    s.append(")");
    proof {
        assert(s@ =~= master_volume_msg(percent as nat));
    }
    s
}

/// Builds the confirmation for a master mute write.
pub fn mute_message(mute: bool) -> (r: String)
    ensures
        r@ == mute_msg(mute),
{
    let mut s = String::from_str("Master volume muted: ");
    if mute {
        s.append("true");
    } else {
        s.append("false");
    }
    s
}

/// Builds the confirmation for a per-application volume write.
pub fn app_volume_message(name: &str, percent: u8) -> (r: String)
    requires
        percent <= 100,
    ensures
        r@ == app_volume_msg(name@, percent as nat),
{
    let mut s = String::from_str("Volume for '");
    s.append(name);
    s.append("' set to ");
    let d = dec_string(percent);
    s.append(d.as_str());
    s.append("% (normalized: ");
    let v = norm_string(percent);
    s.append(v.as_str());
    s.append(")");
    proof {
        assert(s@ =~= app_volume_msg(name@, percent as nat));
    }
    s
}

/// Builds the benign reply when no session path contains the name.
pub fn not_found_message(name: &str) -> (r: String)
    ensures
        r@ == not_found_msg(name@),
{
    let mut s = String::from_str("Could not find an application named '");
    s.append(name);
    s.append("'");
    proof {
        assert(s@ =~= not_found_msg(name@));
    }
    s
}

} // verus!
