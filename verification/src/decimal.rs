//! Decimal and hexadecimal rendering of unsigned integers.
use vstd::prelude::*;
use vstd::string::*;

verus! {

/// The character of a decimal digit.
pub open spec fn digit_char(d: nat) -> char {
    if d == 0 {
        '0'
    } else if d == 1 {
        '1'
    } else if d == 2 {
        '2'
    } else if d == 3 {
        '3'
    } else if d == 4 {
        '4'
    } else if d == 5 {
        '5'
    } else if d == 6 {
        '6'
    } else if d == 7 {
        '7'
    } else if d == 8 {
        '8'
    } else {
        '9'
    }
}

/// Decimal digits of `n`, most significant first, without leading zeros.
pub open spec fn decimal(n: nat) -> Seq<char>
    decreases n,
{
    if n < 10 {
        seq![digit_char(n)]
    } else {
        decimal(n / 10).push(digit_char(n % 10))
    }
}

fn digit_str(d: u8) -> (r: &'static str)
    requires
        d < 10,
    ensures
        r@ == seq![digit_char(d as nat)],
{
    proof {
        reveal_strlit("0");
        reveal_strlit("1");
        reveal_strlit("2");
        reveal_strlit("3");
        reveal_strlit("4");
        reveal_strlit("5");
        reveal_strlit("6");
        reveal_strlit("7");
        reveal_strlit("8");
        reveal_strlit("9");
    }
    if d == 0 {
        "0"
    } else if d == 1 {
        "1"
    } else if d == 2 {
        "2"
    } else if d == 3 {
        "3"
    } else if d == 4 {
        "4"
    } else if d == 5 {
        "5"
    } else if d == 6 {
        "6"
    } else if d == 7 {
        "7"
    } else if d == 8 {
        "8"
    } else {
        "9"
    }
}

/// `decimal(n)` is the decimal of the leading part followed by the digits
/// taken off the end.
spec fn digits_value(ds: Seq<u8>) -> Seq<char>
    decreases ds.len(),
{
    if ds.len() == 0 {
        Seq::empty()
    } else {
        digits_value(ds.drop_last()).push(digit_char(ds.last() as nat))
    }
}

proof fn lemma_digits_value_prepend(x: u8, s: Seq<u8>)
    ensures
        digits_value(seq![x] + s) == seq![digit_char(x as nat)] + digits_value(s),
    decreases s.len(),
{
    if s.len() == 0 {
        assert(seq![x] + s =~= seq![x]);
        assert(seq![x].drop_last() =~= Seq::<u8>::empty());
        assert(digits_value(Seq::<u8>::empty()) == Seq::<char>::empty());
        assert(digits_value(seq![x]) == digits_value(seq![x].drop_last()).push(digit_char(x as nat)));
        assert(seq![digit_char(x as nat)] + digits_value(s) =~= seq![digit_char(x as nat)]);
    } else {
        lemma_digits_value_prepend(x, s.drop_last());
        assert((seq![x] + s).drop_last() =~= seq![x] + s.drop_last());
        assert((seq![x] + s).last() == s.last());
        assert(digits_value(seq![x] + s) == digits_value((seq![x] + s).drop_last()).push(
            digit_char((seq![x] + s).last() as nat),
        ));
        assert(seq![digit_char(x as nat)] + digits_value(s) =~= (seq![digit_char(x as nat)]
            + digits_value(s.drop_last())).push(digit_char(s.last() as nat)));
    }
}

/// Appends the decimal digits of `n` to `out`.
pub fn push_decimal(out: &mut String, n: u128)
    ensures
        final(out)@ == old(out)@ + decimal(n as nat),
{
    // Collect the digits, least significant first.
    let mut ds: Vec<u8> = Vec::new();
    let mut m: u128 = n;
    let mut first = true;
    while first || m > 0
        invariant
            first ==> m == n && ds@.len() == 0,
            !first ==> ds@.len() > 0,
            forall|j: int| 0 <= j < ds@.len() ==> ds@[j] < 10,
            !first ==> decimal(n as nat) == (if m == 0 {
                Seq::<char>::empty()
            } else {
                decimal(m as nat)
            }) + digits_value(ds@.reverse()),
        decreases m, (if first { 1int } else { 0int }),
    {
        let d = (m % 10) as u8;
        let ghost old_ds = ds@;
        let ghost old_m = m;
        ds.push(d);
        m = m / 10;
        proof {
            assert(ds@.reverse() =~= seq![d] + old_ds.reverse());
            lemma_digits_value_prepend(d, old_ds.reverse());
            if first {
                assert(old_ds.reverse() =~= Seq::<u8>::empty());
                if m == 0 {
                    assert(decimal(n as nat) =~= Seq::<char>::empty() + digits_value(ds@.reverse()));
                } else {
                    assert(decimal(n as nat) =~= decimal(m as nat) + digits_value(ds@.reverse()));
                }
            } else {
                assert(old_m > 0);
                if m == 0 {
                    assert(decimal(old_m as nat) == seq![digit_char(d as nat)]);
                    assert(decimal(n as nat) =~= Seq::<char>::empty() + digits_value(ds@.reverse()));
                } else {
                    assert(decimal(old_m as nat) == decimal(m as nat).push(digit_char(d as nat)));
                    assert(decimal(n as nat) =~= decimal(m as nat) + digits_value(ds@.reverse()));
                }
            }
        }
        first = false;
    }
    // Emit them, most significant first.
    let ghost start = out@;
    let mut i: usize = ds.len();
    while i > 0
        invariant
            i <= ds@.len(),
            forall|j: int| 0 <= j < ds@.len() ==> ds@[j] < 10,
            out@ == start + digits_value(ds@.subrange(i as int, ds@.len() as int).reverse()),
        decreases i,
    {
        i = i - 1;
        let s = digit_str(ds[i]);
        let ghost before = out@;
        out.append(s);
        proof {
            let t = ds@.subrange(i as int, ds@.len() as int).reverse();
            let u = ds@.subrange(i + 1, ds@.len() as int).reverse();
            assert(t.drop_last() =~= u);
            assert(t.last() == ds@[i as int]);
            assert(out@ =~= start + digits_value(t));
        }
    }
    assert(ds@.subrange(0, ds@.len() as int) =~= ds@);
}

/// The decimal rendering of `n`.
pub fn decimal_string(n: u128) -> (r: String)
    ensures
        r@ == decimal(n as nat),
{
    let mut s = String::new();
    push_decimal(&mut s, n);
    assert(s@ =~= decimal(n as nat));
    s
}

/// The character of a hexadecimal digit, in lower case.
pub open spec fn hex_digit_char(d: nat) -> char {
    if d < 10 {
        digit_char(d)
    } else if d == 10 {
        'a'
    } else if d == 11 {
        'b'
    } else if d == 12 {
        'c'
    } else if d == 13 {
        'd'
    } else if d == 14 {
        'e'
    } else {
        'f'
    }
}

/// Lower-case hexadecimal digits of `n`, most significant first, without
/// leading zeros.
pub open spec fn hex(n: nat) -> Seq<char>
    decreases n,
{
    if n < 16 {
        seq![hex_digit_char(n)]
    } else {
        hex(n / 16).push(hex_digit_char(n % 16))
    }
}

fn hex_digit_str(d: u8) -> (r: &'static str)
    requires
        d < 16,
    ensures
        r@ == seq![hex_digit_char(d as nat)],
{
    proof {
        reveal_strlit("a");
        reveal_strlit("b");
        reveal_strlit("c");
        reveal_strlit("d");
        reveal_strlit("e");
        reveal_strlit("f");
    }
    if d < 10 {
        digit_str(d)
    } else if d == 10 {
        "a"
    } else if d == 11 {
        "b"
    } else if d == 12 {
        "c"
    } else if d == 13 {
        "d"
    } else if d == 14 {
        "e"
    } else {
        "f"
    }
}

/// Appends the lower-case hexadecimal digits of `n` to `out`.
pub fn push_hex(out: &mut String, n: u64)
    ensures
        final(out)@ == old(out)@ + hex(n as nat),
    decreases n,
{
    if n >= 16 {
        push_hex(out, n / 16);
    }
    let d = (n % 16) as u8;
    out.append(hex_digit_str(d));
    proof {
        if n >= 16 {
            assert(hex(n as nat) == hex((n / 16) as nat).push(hex_digit_char(d as nat)));
        }
    }
    assert(out@ =~= old(out)@ + hex(n as nat));
}

/// Two lower-case hexadecimal digits of a byte.
pub open spec fn hex_byte(b: u8) -> Seq<char> {
    seq![hex_digit_char((b / 16) as nat), hex_digit_char((b % 16) as nat)]
}

/// Lower-case hexadecimal of bytes, two digits each.
pub open spec fn hex_bytes(bs: Seq<u8>) -> Seq<char>
    decreases bs.len(),
{
    if bs.len() == 0 {
        Seq::empty()
    } else {
        hex_bytes(bs.drop_last()) + hex_byte(bs.last())
    }
}

/// Appends the lower-case hexadecimal of `bs`, two digits per byte.
pub fn push_hex_bytes(out: &mut String, bs: &[u8])
    ensures
        final(out)@ == old(out)@ + hex_bytes(bs@),
{
    let mut i: usize = 0;
    while i < bs.len()
        invariant
            i <= bs@.len(),
            out@ == old(out)@ + hex_bytes(bs@.take(i as int)),
        decreases bs@.len() - i,
    {
        let b = bs[i];
        out.append(hex_digit_str(b / 16));
        out.append(hex_digit_str(b % 16));
        assert(bs@.take(i + 1).drop_last() =~= bs@.take(i as int));
        assert(out@ =~= old(out)@ + hex_bytes(bs@.take(i + 1)));
        i = i + 1;
    }
    assert(bs@.take(bs@.len() as int) =~= bs@);
}

} // verus!
