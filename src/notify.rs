use vstd::prelude::*;
use crate::model::UsageData;

verus! {

pub open spec fn digit_char(d: int) -> char {
    seq!['0', '1', '2', '3', '4', '5', '6', '7', '8', '9'][d]
}

/// The decimal digits of `n`, without leading zeros.
pub open spec fn decimal(n: nat) -> Seq<char>
    decreases n,
{
    if n < 10 {
        seq![digit_char(n as int)]
    } else {
        decimal(n / 10) + seq![digit_char((n % 10) as int)]
    }
}

/// An amount in millionths of a currency unit, rounded to whole cents, half
/// up.
pub open spec fn rounded_cents(micros: u64) -> nat {
    (micros / 10000 + if micros % 10000 >= 5000 {
        1int
    } else {
        0int
    }) as nat
}

/// An amount as `$` followed by its units, a point and two digits of cents.
pub open spec fn money_text(micros: u64) -> Seq<char> {
    let c = rounded_cents(micros);
    "$"@ + decimal(c / 100) + "."@ + seq![digit_char(((c % 100) / 10) as int), digit_char((c % 10) as int)]
}

/// The longer status text: today's cost, then the session's cost and whether
/// it is active, or the mode when there is no session.
pub open spec fn tooltip_text(d: UsageData) -> Seq<char> {
    let today = "Today: "@ + money_text(d.today.cost);
    match d.session {
        Some(s) => today + " | Session: "@ + money_text(s.cost) + if s.is_active {
            " (Active)"@
        } else {
            Seq::<char>::empty()
        },
        None => today + " | Mode: "@ + d.mode@,
    }
}

fn digit_text(d: u64) -> (r: &'static str)
    requires
        d < 10,
    ensures
        r@ == seq![digit_char(d as int)],
{
    proof {
        reveal_strlit("0");
        reveal_strlit("1");
        reveal_strlit("2");
        reveal_strlit("3");
        reveal_strlit("4");
        reveal_strlit("5");
        reveal_strlit("6");
        reveal_strlit("7");
        reveal_strlit("8");
        reveal_strlit("9");
    }
    let r = if d == 0 {
        "0"
    } else if d == 1 {
        "1"
    } else if d == 2 {
        "2"
    } else if d == 3 {
        "3"
    } else if d == 4 {
        "4"
    } else if d == 5 {
        "5"
    } else if d == 6 {
        "6"
    } else if d == 7 {
        "7"
    } else if d == 8 {
        "8"
    } else {
        "9"
    };
    assert(r@ =~= seq![digit_char(d as int)]);
    r
}

fn push_decimal(s: &mut String, n: u64)
    ensures
        final(s)@ == old(s)@ + decimal(n as nat),
    decreases n,
{
    if n < 10 {
        s.append(digit_text(n));
    } else {
        push_decimal(s, n / 10);
        s.append(digit_text(n % 10));
        assert(decimal(n as nat) == decimal((n / 10) as nat) + seq![digit_char((n % 10) as int)]);
    }
}

/// An amount in millionths of a currency unit as `$units.cents`.
pub fn money(micros: u64) -> (r: String)
    ensures
        r@ == money_text(micros),
{
    let c: u64 = micros / 10000 + if micros % 10000 >= 5000 {
        1
    } else {
        0
    };
    assert(c == rounded_cents(micros));
    let mut r = String::from_str("$");
    push_decimal(&mut r, c / 100);
    r.append(".");
    r.append(digit_text((c % 100) / 10));
    r.append(digit_text(c % 10));
    r
}

/// The short status label: today's cost.
pub fn tray_label(d: &UsageData) -> (r: String)
    ensures
        r@ == money_text(d.today.cost),
{
    money(d.today.cost)
}

/// The longer status text shown on hover.
pub fn tray_tooltip(d: &UsageData) -> (r: String)
    ensures
        r@ == tooltip_text(*d),
{
    let mut r = String::from_str("Today: ");
    let label = money(d.today.cost);
    r.append(label.as_str());
    match &d.session {
        Some(s) => {
            r.append(" | Session: ");
            let sc = money(s.cost);
            r.append(sc.as_str());
            if s.is_active {
                r.append(" (Active)");
            } else {
                assert(r@ + Seq::<char>::empty() =~= r@);
            }
        },
        None => {
            r.append(" | Mode: ");
            r.append(d.mode.as_str());
        },
    }
    r
}

} // verus!
