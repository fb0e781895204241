use vstd::prelude::*;

verus! {

/// The colours the game asks for.
#[derive(Clone, Copy, Debug, PartialEq, Eq, Structural)]
pub enum Color {
    Black,
    Yellow,
    Red,
    Navy,
}

/// One draw request handed to the host.
#[derive(Debug, PartialEq, Eq)]
pub enum Draw {
    /// Clear the whole screen.
    Cls,
    /// Clear the screen to a background colour.
    ClsBg(Color),
    /// One glyph at a screen cell.
    Glyph { x: i32, y: i32, glyph: char, fg: Color, bg: Color },
    /// A line of text centred on a row.
    Centered { row: i32, text: String },
    /// A line of text starting at a screen cell.
    Print { x: i32, y: i32, text: String },
}

/// `d` asks for glyph `c` at `(x, y)` in colour `fg` on `bg`.
pub open spec fn is_glyph(d: Draw, x: int, y: int, c: char, fg: Color, bg: Color) -> bool {
    d matches Draw::Glyph { x: dx, y: dy, glyph, fg: dfg, bg: dbg }
        && dx == x && dy == y && glyph == c && dfg == fg && dbg == bg
}

/// `d` asks for `s` centred on `row`.
pub open spec fn is_centered(d: Draw, row: int, s: Seq<char>) -> bool {
    match d {
        Draw::Centered { row: r, text } => r == row && text@ == s,
        _ => false,
    }
}

/// `d` asks for `s` printed from `(x, y)`.
pub open spec fn is_print(d: Draw, x: int, y: int, s: Seq<char>) -> bool {
    match d {
        Draw::Print { x: dx, y: dy, text } => dx == x && dy == y && text@ == s,
        _ => false,
    }
}

/// The decimal digit for `d < 10`.
pub open spec fn digit_char(d: nat) -> char {
    (('0' as nat) + d) as char
}

/// The decimal representation of `n`, without leading zeros.
pub open spec fn decimal(n: nat) -> Seq<char>
    decreases n,
{
    if n < 10 {
        seq![digit_char(n)]
    } else {
        decimal(n / 10).push(digit_char(n % 10))
    }
}

/// The one-character string of decimal digit `d`.
fn digit_str(d: u32) -> (r: &'static str)
    requires
        d < 10,
    ensures
        r@ == seq![digit_char(d as nat)],
{
    match d {
        0 => {
            proof {
                reveal_strlit("0");
            }
            "0"
        },
        1 => {
            proof {
                reveal_strlit("1");
            }
            "1"
        },
        2 => {
            proof {
                reveal_strlit("2");
            }
            "2"
        },
        3 => {
            proof {
                reveal_strlit("3");
            }
            "3"
        },
        4 => {
            proof {
                reveal_strlit("4");
            }
            "4"
        },
        5 => {
            proof {
                reveal_strlit("5");
            }
            "5"
        },
        6 => {
            proof {
                reveal_strlit("6");
            }
            "6"
        },
        7 => {
            proof {
                reveal_strlit("7");
            }
            "7"
        },
        8 => {
            proof {
                reveal_strlit("8");
            }
            "8"
        },
        _ => {
            proof {
                reveal_strlit("9");
            }
            "9"
        },
    }
}

/// Appends the decimal digits of `n` to `out`.
fn push_decimal(out: &mut String, n: u32)
    ensures
        final(out)@ == old(out)@ + decimal(n as nat),
    decreases n,
{
    if n >= 10 {
        push_decimal(out, n / 10);
    }
    out.append(digit_str(n % 10));
    proof {
        if n >= 10 {
            assert(decimal(n as nat) == decimal((n / 10) as nat).push(digit_char((n % 10) as nat)));
        }
    }
    assert(out@ =~= old(out)@ + decimal(n as nat));
}

/// `label` followed by `n` in decimal.
pub fn labelled_number(label: &str, n: i32) -> (r: String)
    requires
        n >= 0,
    ensures
        r@ == label@ + decimal(n as nat),
{
    let mut out = label.to_owned();
    push_decimal(&mut out, n as u32);
    out
}

/// A request for `text` centred on `row`.
pub fn centered(row: i32, text: String) -> (r: Draw)
    ensures
        is_centered(r, row as int, text@),
{
    Draw::Centered { row, text }
}

/// A request for `text` printed from `(x, y)`.
pub fn print(x: i32, y: i32, text: String) -> (r: Draw)
    ensures
        is_print(r, x as int, y as int, text@),
{
    Draw::Print { x, y, text }
}

} // verus!
