use vstd::prelude::*;
use crate::crop::{round_div, round_div_exec};
use crate::geometry::ScreenInfo;

verus! {

/// A monitor as the windowing system reports it, in physical pixels, with
/// its scale factor in thousandths.
#[derive(Clone, Debug)]
pub struct MonitorReading {
    pub name: Option<String>,
    pub x: i32,
    pub y: i32,
    pub width: u32,
    pub height: u32,
    pub scale_permille: u32,
}

pub open spec fn digit_char(d: int) -> char {
    if d == 0 {
        '0'
    } else if d == 1 {
        '1'
    } else if d == 2 {
        '2'
    } else if d == 3 {
        '3'
    } else if d == 4 {
        '4'
    } else if d == 5 {
        '5'
    } else if d == 6 {
        '6'
    } else if d == 7 {
        '7'
    } else if d == 8 {
        '8'
    } else {
        '9'
    }
}

/// The decimal digits of `n`, without leading zeros.
pub open spec fn decimal(n: nat) -> Seq<char>
    decreases n,
{
    if n < 10 {
        seq![digit_char(n as int)]
    } else {
        decimal(n / 10) + seq![digit_char((n % 10) as int)]
    }
}

fn digit_text(d: usize) -> (r: &'static str)
    requires
        d < 10,
    ensures
        r@ == seq![digit_char(d as int)],
{
    proof {
        reveal_strlit("0");
        reveal_strlit("1");
        reveal_strlit("2");
        reveal_strlit("3");
        reveal_strlit("4");
        reveal_strlit("5");
        reveal_strlit("6");
        reveal_strlit("7");
        reveal_strlit("8");
        reveal_strlit("9");
    }
    if d == 0 {
        "0"
    } else if d == 1 {
        "1"
    } else if d == 2 {
        "2"
    } else if d == 3 {
        "3"
    } else if d == 4 {
        "4"
    } else if d == 5 {
        "5"
    } else if d == 6 {
        "6"
    } else if d == 7 {
        "7"
    } else if d == 8 {
        "8"
    } else {
        "9"
    }
}

/// `n` written in decimal.
pub fn decimal_string(n: usize) -> (r: String)
    ensures
        r@ == decimal(n as nat),
    decreases n,
{
    if n < 10 {
        String::from_str(digit_text(n))
    } else {
        let mut r = decimal_string(n / 10);
        r.append(digit_text(n % 10));
        r
    }
}

/// A physical coordinate in logical pixels, `round(v * 1000 / permille)`,
/// halves away from zero.
pub open spec fn logical_of(v: int, permille: int) -> int {
    round_div(v * 1000, permille)
}

pub open spec fn saturate_i32(v: int) -> i32 {
    if v < i32::MIN {
        i32::MIN
    } else if v > i32::MAX {
        i32::MAX
    } else {
        v as i32
    }
}

pub open spec fn saturate_u32(v: int) -> u32 {
    if v < 0 {
        0
    } else if v > u32::MAX {
        u32::MAX
    } else {
        v as u32
    }
}

/// The name of the `index`-th monitor: its own, or "Display " and its
/// position counted from one.
pub open spec fn display_name(name: Option<String>, index: nat) -> Seq<char> {
    match name {
        Some(n) => n@,
        None => "Display "@ + decimal(index + 1),
    }
}

/// The screen that the `index`-th monitor stands for, in logical pixels.
pub open spec fn screen_matches(s: ScreenInfo, m: MonitorReading, index: nat) -> bool {
    &&& s.id@ == decimal(index)
    &&& s.name@ == display_name(m.name, index)
    &&& s.x == saturate_i32(logical_of(m.x as int, m.scale_permille as int))
    &&& s.y == saturate_i32(logical_of(m.y as int, m.scale_permille as int))
    &&& s.width == saturate_u32(logical_of(m.width as int, m.scale_permille as int))
    &&& s.height == saturate_u32(logical_of(m.height as int, m.scale_permille as int))
    &&& s.scale_permille == m.scale_permille
}

fn to_logical(v: i64, permille: u32) -> (r: i64)
    requires
        permille > 0,
        -0x1_0000_0000 <= v <= 0x1_0000_0000,
    ensures
        r == logical_of(v as int, permille as int),
{
    let r = round_div_exec((v as i128) * 1000, permille as i128);
    r as i64
}

fn clamp_i32(v: i64) -> (r: i32)
    ensures
        r == saturate_i32(v as int),
{
    if v < i32::MIN as i64 {
        i32::MIN
    } else if v > i32::MAX as i64 {
        i32::MAX
    } else {
        v as i32
    }
}

fn clamp_u32(v: i64) -> (r: u32)
    ensures
        r == saturate_u32(v as int),
{
    if v < 0 {
        0
    } else if v > u32::MAX as i64 {
        u32::MAX
    } else {
        v as u32
    }
}

/// The screen that the `index`-th monitor stands for: its position and size
/// in logical pixels, its index as id, and its name or "Display <index + 1>".
pub fn screen_from_monitor(m: &MonitorReading, index: usize) -> (r: ScreenInfo)
    requires
        m.scale_permille > 0,
        index < usize::MAX,
    ensures
        screen_matches(r, *m, index as nat),
{
    let name = match &m.name {
        Some(n) => n.clone(),
        None => {
            let mut s = String::from_str("Display ");
            let digits = decimal_string(index + 1);
            s.append(digits.as_str());
            s
        },
    };
    ScreenInfo {
        id: decimal_string(index),
        name,
        x: clamp_i32(to_logical(m.x as i64, m.scale_permille)),
        y: clamp_i32(to_logical(m.y as i64, m.scale_permille)),
        width: clamp_u32(to_logical(m.width as i64, m.scale_permille)),
        height: clamp_u32(to_logical(m.height as i64, m.scale_permille)),
        scale_permille: m.scale_permille,
    }
}

/// The screens of the virtual desktop, one per monitor in the order the
/// windowing system reports them.
pub fn collect_screens(monitors: &Vec<MonitorReading>) -> (r: Vec<ScreenInfo>)
    requires
        forall|i: int| 0 <= i < monitors@.len() ==> (#[trigger] monitors@[i]).scale_permille > 0,
    ensures
        r@.len() == monitors@.len(),
        forall|i: int| 0 <= i < r@.len() ==> screen_matches(#[trigger] r@[i], monitors@[i], i as nat),
{
    let mut r: Vec<ScreenInfo> = Vec::new();
    let mut i: usize = 0;
    while i < monitors.len()
        invariant
            i <= monitors@.len(),
            r@.len() == i,
            forall|j: int| 0 <= j < monitors@.len() ==> (#[trigger] monitors@[j]).scale_permille > 0,
            forall|j: int| 0 <= j < r@.len() ==> screen_matches(#[trigger] r@[j], monitors@[j], j as nat),
        decreases monitors@.len() - i,
    {
        let s = screen_from_monitor(&monitors[i], i);
        r.push(s);
        i = i + 1;
    }
    r
}

} // verus!
