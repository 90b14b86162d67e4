//! Decimal rendering of the numbers that go on the media tool's command line.
use vstd::prelude::*;

verus! {

/// The decimal digit character for `d < 10`.
pub open spec fn digit_char(d: nat) -> char {
    if d == 0 {
        '0'
    } else if d == 1 {
        '1'
    } else if d == 2 {
        '2'
    } else if d == 3 {
        '3'
    } else if d == 4 {
        '4'
    } else if d == 5 {
        '5'
    } else if d == 6 {
        '6'
    } else if d == 7 {
        '7'
    } else if d == 8 {
        '8'
    } else {
        '9'
    }
}

/// The decimal text of `v`, without sign or leading zeros.
pub open spec fn nat_text(v: nat) -> Seq<char>
    decreases v,
{
    if v < 10 {
        seq![digit_char(v)]
    } else {
        nat_text(v / 10).push(digit_char(v % 10))
    }
}

/// `s` with zeros in front until it is at least `width` characters long.
pub open spec fn zero_padded(s: Seq<char>, width: nat) -> Seq<char> {
    if s.len() >= width {
        s
    } else {
        Seq::new((width - s.len()) as nat, |_i: int| '0') + s
    }
}

/// `s` without its trailing zeros.
pub open spec fn trim_trailing_zeros(s: Seq<char>) -> Seq<char>
    decreases s.len(),
{
    if s.len() > 0 && s.last() == '0' {
        trim_trailing_zeros(s.drop_last())
    } else {
        s
    }
}

/// The digits after the decimal point of `f / 1000`, for `0 < f < 1000`:
/// the three digits of `f` without trailing zeros.
pub open spec fn fraction_text(f: nat) -> Seq<char> {
    trim_trailing_zeros(zero_padded(nat_text(f), 3))
}

/// The decimal text of `v / 1000`: the integer part, then a point and the
/// fraction only where the fraction is not zero (`60000` is `60`, `22500` is `22.5`).
pub open spec fn thousandths_text(v: nat) -> Seq<char> {
    if v % 1000 == 0 {
        nat_text(v / 1000)
    } else {
        nat_text(v / 1000) + seq!['.'] + fraction_text(v % 1000)
    }
}

pub open spec fn abs(n: int) -> nat {
    if n < 0 {
        (-n) as nat
    } else {
        n as nat
    }
}

/// The text of the rational `n / d`: an integer where `d` divides `n`,
/// else the fraction `n/d`, which the media tool evaluates as an expression.
pub open spec fn rational_text(n: int, d: nat) -> Seq<char> {
    let sign = if n < 0 {
        seq!['-']
    } else {
        Seq::<char>::empty()
    };
    if abs(n) % d == 0 {
        sign + nat_text(abs(n) / d)
    } else {
        sign + nat_text(abs(n)) + seq!['/'] + nat_text(d)
    }
}

/// `name` placed inside the directory `dir`, with one `/` between them.
pub open spec fn joined_path(dir: Seq<char>, name: Seq<char>) -> Seq<char> {
    if dir.len() == 0 || dir.last() == '/' {
        dir + name
    } else {
        dir + seq!['/'] + name
    }
}

fn digit_str(d: u8) -> (r: &'static str)
    requires
        d < 10,
    ensures
        r@ == seq![digit_char(d as nat)],
{
    proof {
        reveal_strlit("0");
        reveal_strlit("1");
        reveal_strlit("2");
        reveal_strlit("3");
        reveal_strlit("4");
        reveal_strlit("5");
        reveal_strlit("6");
        reveal_strlit("7");
        reveal_strlit("8");
        reveal_strlit("9");
    }
    match d {
        0 => "0",
        1 => "1",
        2 => "2",
        3 => "3",
        4 => "4",
        5 => "5",
        6 => "6",
        7 => "7",
        8 => "8",
        _ => "9",
    }
}

/// Decimal text of an unsigned number.
pub fn decimal_text(v: u128) -> (r: String)
    ensures
        r@ == nat_text(v as nat),
    decreases v,
{
    if v < 10 {
        String::from_str(digit_str(v as u8))
    } else {
        let mut s = decimal_text(v / 10);
        s.append(digit_str((v % 10) as u8));
        s
    }
}

/// `s` padded with leading zeros to at least `width` characters.
pub fn pad_with_zeros(s: String, width: usize) -> (r: String)
    ensures
        r@ == zero_padded(s@, width as nat),
{
    let mut r = s;
    let len = r.as_str().unicode_len();
    if len >= width {
        return r;
    }
    let mut k: usize = 0;
    while len + k < width
        invariant
            len == s@.len(),
            len < width,
            len + k <= width,
            r@ == Seq::new(k as nat, |_i: int| '0') + s@,
        decreases width - len - k,
    {
        proof {
            reveal_strlit("0");
        }
        let mut z = String::from_str("0");
        z.append(r.as_str());
        r = z;
        k = k + 1;
        assert(r@ =~= Seq::new(k as nat, |_i: int| '0') + s@);
    }
    r
}

/// The three digits of `f < 1000`, with leading zeros.
proof fn lemma_three_digits(f: nat)
    requires
        f < 1000,
    ensures
        zero_padded(nat_text(f), 3) == seq![
            digit_char(f / 100),
            digit_char((f / 10) % 10),
            digit_char(f % 10),
        ],
{
    reveal_with_fuel(nat_text, 3);
    if f < 10 {
        assert(zero_padded(nat_text(f), 3) =~= seq![
            digit_char(f / 100),
            digit_char((f / 10) % 10),
            digit_char(f % 10),
        ]);
    } else if f < 100 {
        assert(nat_text(f / 10) == seq![digit_char(f / 10)]);
        assert(zero_padded(nat_text(f), 3) =~= seq![
            digit_char(f / 100),
            digit_char((f / 10) % 10),
            digit_char(f % 10),
        ]);
    } else {
        assert(nat_text(f / 100) == seq![digit_char(f / 100)]);
        assert(f / 10 / 10 == f / 100);
        assert(nat_text(f / 10) == nat_text(f / 100).push(digit_char((f / 10) % 10)));
        assert(nat_text(f) =~= seq![
            digit_char(f / 100),
            digit_char((f / 10) % 10),
            digit_char(f % 10),
        ]);
    }
}

/// Decimal text of `v / 1000`, see `thousandths_text`.
pub fn thousandths_to_text(v: u64) -> (r: String)
    ensures
        r@ == thousandths_text(v as nat),
{
    let mut s = decimal_text((v / 1000) as u128);
    let f = v % 1000;
    if f != 0 {
        proof {
            reveal_strlit(".");
        }
        s.append(".");
        let d1 = (f / 100) as u8;
        let d2 = ((f / 10) % 10) as u8;
        let d3 = (f % 10) as u8;
        let ghost digits = seq![
            digit_char(d1 as nat),
            digit_char(d2 as nat),
            digit_char(d3 as nat),
        ];
        proof {
            lemma_three_digits(f as nat);
            reveal_with_fuel(trim_trailing_zeros, 4);
            assert(digits.drop_last() =~= seq![digit_char(d1 as nat), digit_char(d2 as nat)]);
            assert(digits.drop_last().drop_last() =~= seq![digit_char(d1 as nat)]);
            assert(digits.drop_last().drop_last().drop_last() =~= Seq::<char>::empty());
        }
        s.append(digit_str(d1));
        if d2 != 0 || d3 != 0 {
            s.append(digit_str(d2));
        }
        if d3 != 0 {
            s.append(digit_str(d3));
        }
    }
    s
}

/// Text of the rational `n / d`, see `rational_text`.
pub fn rational_to_text(n: i128, d: u64) -> (r: String)
    requires
        d > 0,
        n > i128::MIN,
    ensures
        r@ == rational_text(n as int, d as nat),
{
    let m: u128 = if n < 0 {
        (-n) as u128
    } else {
        n as u128
    };
    let mut s = if n < 0 {
        proof {
            reveal_strlit("-");
        }
        String::from_str("-")
    } else {
        proof {
            reveal_strlit("");
        }
        String::from_str("")
    };
    if m % (d as u128) == 0 {
        let t = decimal_text(m / (d as u128));
        s.append(t.as_str());
    } else {
        let t = decimal_text(m);
        s.append(t.as_str());
        proof {
            reveal_strlit("/");
        }
        s.append("/");
        let u = decimal_text(d as u128);
        s.append(u.as_str());
    }
    assert(s@ =~= rational_text(n as int, d as nat));
    s
}

/// The path of `name` inside the directory `dir`, see `joined_path`.
pub fn join_path(dir: &str, name: &str) -> (r: String)
    ensures
        r@ == joined_path(dir@, name@),
{
    let n = dir.unicode_len();
    let mut s = String::from_str(dir);
    if n == 0 || dir.get_char(n - 1) == '/' {
        s.append(name);
    } else {
        proof {
            reveal_strlit("/");
        }
        s.append("/");
        s.append(name);
    }
    s
}

/// The texts of a list of strings, such as a command's arguments.
pub open spec fn texts(v: Seq<String>) -> Seq<Seq<char>> {
    v.map_values(|x: String| x@)
}

/// Appends a copy of `s` to the argument list `args`.
pub fn push_arg(args: &mut Vec<String>, s: &str)
    ensures
        texts(final(args)@) == texts(old(args)@).push(s@),
{
    args.push(String::from_str(s));
    assert(texts(args@) =~= texts(old(args)@).push(s@));
}

} // verus!
