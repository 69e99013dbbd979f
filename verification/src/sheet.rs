//! The sprite sheet description: named source rectangles in the sheet image,
//! and the policy that composes a sheet key from a cycle prefix and a sprite
//! index.

use vstd::prelude::*;

use vstd::hash_map::StringHashMap;

verus! {

/// A source rectangle inside the sprite sheet image.
#[derive(Clone, Copy, Debug, PartialEq, Eq, Structural)]
pub struct SheetRect {
    pub x: i16,
    pub y: i16,
    pub w: i16,
    pub h: i16,
}

/// One named entry of the sheet description.
#[derive(Clone, Copy, Debug, PartialEq, Eq, Structural)]
pub struct Cell {
    pub frame: SheetRect,
}

/// The immutable lookup from a frame-name key to its source rectangle.
pub struct Sheet {
    pub frames: StringHashMap<Cell>,
}

impl View for Sheet {
    type V = Map<Seq<char>, Cell>;

    open spec fn view(&self) -> Map<Seq<char>, Cell> {
        self.frames@
    }
}

impl Sheet {
    /// An empty sheet description.
    pub fn new() -> (r: Self)
        ensures
            r@ == Map::<Seq<char>, Cell>::empty(),
    {
        Sheet { frames: StringHashMap::new() }
    }
}

/// The decimal digit character of `d`, for `0 <= d < 10`.
pub open spec fn spec_digit(d: int) -> char {
    if d == 0 {
        '0'
    } else if d == 1 {
        '1'
    } else if d == 2 {
        '2'
    } else if d == 3 {
        '3'
    } else if d == 4 {
        '4'
    } else if d == 5 {
        '5'
    } else if d == 6 {
        '6'
    } else if d == 7 {
        '7'
    } else if d == 8 {
        '8'
    } else {
        '9'
    }
}

/// The decimal numeral of `n`, most significant digit first, without
/// leading zeros.
pub open spec fn spec_decimal(n: int) -> Seq<char>
    decreases n,
{
    if n < 10 {
        seq![spec_digit(n)]
    } else {
        spec_decimal(n / 10).push(spec_digit(n % 10))
    }
}

/// The decimal digit character of `d` as a one-character string slice.
fn digit_str(d: u8) -> (r: &'static str)
    requires
        d < 10,
    ensures
        r@ == seq![spec_digit(d as int)],
{
    proof {
        reveal_strlit("0");
        reveal_strlit("1");
        reveal_strlit("2");
        reveal_strlit("3");
        reveal_strlit("4");
        reveal_strlit("5");
        reveal_strlit("6");
        reveal_strlit("7");
        reveal_strlit("8");
        reveal_strlit("9");
    }
    let r: &'static str = match d {
        0 => "0",
        1 => "1",
        2 => "2",
        3 => "3",
        4 => "4",
        5 => "5",
        6 => "6",
        7 => "7",
        8 => "8",
        _ => "9",
    };
    proof {
        assert(r@ =~= seq![spec_digit(d as int)]);
    }
    r
}

/// The decimal numeral of `n` as a string.
pub fn decimal_string(n: u8) -> (r: String)
    ensures
        r@ == spec_decimal(n as int),
{
    if n < 10 {
        let r = String::from_str(digit_str(n));
        proof {
            assert(r@ =~= spec_decimal(n as int));
        }
        r
    } else if n < 100 {
        let mut r = String::from_str(digit_str(n / 10));
        r.append(digit_str(n % 10));
        proof {
            assert(spec_decimal(n as int / 10) =~= seq![spec_digit(n as int / 10)]);
            assert(r@ =~= spec_decimal(n as int));
        }
        r
    } else {
        let mut r = String::from_str(digit_str(n / 100));
        r.append(digit_str((n / 10) % 10));
        r.append(digit_str(n % 10));
        proof {
            assert(n as int / 10 / 10 == n as int / 100) by (nonlinear_arith);
            assert(spec_decimal(n as int / 100) =~= seq![spec_digit(n as int / 100)]);
            assert(spec_decimal(n as int / 10) =~= seq![
                spec_digit(n as int / 100),
                spec_digit(n as int / 10 % 10),
            ]);
            assert(r@ =~= spec_decimal(n as int));
        }
        r
    }
}

/// The sheet key displayed for sprite `index` of the cycle named `prefix`:
/// `"{prefix} ({index}).png"`.
pub open spec fn spec_frame_name_key(prefix: Seq<char>, index: int) -> Seq<char> {
    prefix + " ("@ + spec_decimal(index) + ").png"@
}

/// Compose the sheet key for sprite `index` of the cycle named `prefix`.
pub fn compose_frame_name(prefix: &str, index: u8) -> (r: String)
    ensures
        r@ == spec_frame_name_key(prefix@, index as int),
{
    let mut r = String::from_str(prefix);
    r.append(" (");
    let digits = decimal_string(index);
    r.append(digits.as_str());
    r.append(").png");
    proof {
        assert(r@ =~= spec_frame_name_key(prefix@, index as int));
    }
    r
}

} // verus!
