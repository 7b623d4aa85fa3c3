//! Small text building blocks: decimal numbers and string comparison.
use vstd::prelude::*;
use vstd::string::StringExecFns;

verus! {

/// The character for a decimal digit.
pub open spec fn digit_char(d: int) -> char {
    if d == 0 {
        '0'
    } else if d == 1 {
        '1'
    } else if d == 2 {
        '2'
    } else if d == 3 {
        '3'
    } else if d == 4 {
        '4'
    } else if d == 5 {
        '5'
    } else if d == 6 {
        '6'
    } else if d == 7 {
        '7'
    } else if d == 8 {
        '8'
    } else {
        '9'
    }
}

/// Decimal notation of a natural number, without sign or leading zeros.
pub open spec fn decimal(n: nat) -> Seq<char>
    decreases n,
{
    if n < 10 {
        seq![digit_char(n as int)]
    } else {
        decimal(n / 10).push(digit_char((n % 10) as int))
    }
}

/// Whether the character is a decimal digit.
pub open spec fn is_digit(c: char) -> bool {
    exists|d: int| 0 <= d <= 9 && c == digit_char(d)
}

/// Decimal notation is never empty and holds nothing but digits.
pub proof fn lemma_decimal_is_digits(n: nat)
    ensures
        decimal(n).len() >= 1,
        forall|i: int| 0 <= i < decimal(n).len() ==> is_digit(#[trigger] decimal(n)[i]),
    decreases n,
{
    if n < 10 {
        assert(is_digit(digit_char(n as int)));
    } else {
        lemma_decimal_is_digits(n / 10);
        assert(is_digit(digit_char((n % 10) as int)));
    }
}

/// A number has one digit exactly if it is below ten.
pub proof fn lemma_decimal_len(n: nat)
    ensures
        decimal(n).len() >= 1,
        n < 10 <==> decimal(n).len() == 1,
    decreases n,
{
    if n >= 10 {
        lemma_decimal_len(n / 10);
    }
}

/// Two numbers with the same decimal notation are the same number.
pub proof fn law_decimal_is_one_to_one(n: nat, m: nat)
    requires
        decimal(n) == decimal(m),
    ensures
        n == m,
    decreases n,
{
    lemma_decimal_len(n);
    lemma_decimal_len(m);
    if n < 10 {
        assert(decimal(n)[0] == digit_char(n as int));
        assert(decimal(m)[0] == digit_char(m as int));
    } else {
        let front_n = decimal(n / 10);
        let front_m = decimal(m / 10);
        assert(decimal(n).drop_last() =~= front_n);
        assert(decimal(m).drop_last() =~= front_m);
        assert(decimal(n).last() == digit_char((n % 10) as int));
        assert(decimal(m).last() == digit_char((m % 10) as int));
        law_decimal_is_one_to_one(n / 10, m / 10);
    }
}

/// A digit is no separator.
pub proof fn lemma_digit_is_no_separator(c: char)
    requires
        is_digit(c),
    ensures
        c != '/',
{
    let d = choose|d: int| 0 <= d <= 9 && c == digit_char(d);
    assert(digit_char(d) != '/');
}

/// The digits of `low`, which were peeled off least significant first, in
/// reading order.
pub open spec fn digits_in_reading_order(low: Seq<u8>) -> Seq<char> {
    Seq::new(low.len(), |i: int| digit_char(low[low.len() - 1 - i] as int))
}

/// The one-character string for a decimal digit.
fn digit_str(d: u8) -> (s: &'static str)
    requires
        d < 10,
    ensures
        s@ == seq![digit_char(d as int)],
{
    proof {
        reveal_strlit("0");
        reveal_strlit("1");
        reveal_strlit("2");
        reveal_strlit("3");
        reveal_strlit("4");
        reveal_strlit("5");
        reveal_strlit("6");
        reveal_strlit("7");
        reveal_strlit("8");
        reveal_strlit("9");
    }
    let s = if d == 0 {
        "0"
    } else if d == 1 {
        "1"
    } else if d == 2 {
        "2"
    } else if d == 3 {
        "3"
    } else if d == 4 {
        "4"
    } else if d == 5 {
        "5"
    } else if d == 6 {
        "6"
    } else if d == 7 {
        "7"
    } else if d == 8 {
        "8"
    } else {
        "9"
    };
    assert(s@ =~= seq![digit_char(d as int)]);
    s
}

/// Appends the decimal notation of `n` to `out`.
pub fn push_decimal(out: &mut String, n: u64)
    ensures
        final(out)@ == old(out)@ + decimal(n as nat),
{
    let mut low: Vec<u8> = Vec::new();
    let mut rest: u64 = n;
    while rest >= 10
        invariant
            forall|i: int| 0 <= i < low@.len() ==> low@[i] < 10,
            decimal(n as nat) == decimal(rest as nat) + digits_in_reading_order(low@),
        decreases rest,
    {
        let ghost before = low@;
        let d: u8 = (rest % 10) as u8;
        low.push(d);
        assert(decimal(rest as nat) == decimal((rest / 10) as nat).push(digit_char(d as int)));
        assert(seq![digit_char(d as int)] + digits_in_reading_order(before)
            =~= digits_in_reading_order(low@));
        assert(decimal(rest as nat) + digits_in_reading_order(before) =~= decimal(
            (rest / 10) as nat,
        ) + digits_in_reading_order(low@));
        rest = rest / 10;
    }
    out.append(digit_str(rest as u8));
    assert(decimal(rest as nat) == seq![digit_char(rest as int)]);
    let mut k: usize = low.len();
    while k > 0
        invariant
            k <= low@.len(),
            forall|i: int| 0 <= i < low@.len() ==> low@[i] < 10,
            out@ == old(out)@ + decimal(rest as nat) + digits_in_reading_order(low@).subrange(
                0,
                low@.len() - k,
            ),
        decreases k,
    {
        k -= 1;
        let ghost before = out@;
        out.append(digit_str(low[k]));
        assert(out@ =~= old(out)@ + decimal(rest as nat) + digits_in_reading_order(low@).subrange(
            0,
            low@.len() - k,
        ));
    }
    assert(digits_in_reading_order(low@).subrange(0, low@.len() as int)
        =~= digits_in_reading_order(low@));
    assert(out@ =~= old(out)@ + decimal(n as nat));
}

/// Decimal notation of an integer: a minus sign in front of a negative
/// one.
pub open spec fn signed_decimal(n: int) -> Seq<char> {
    if n < 0 {
        seq!['-'] + decimal((-n) as nat)
    } else {
        decimal(n as nat)
    }
}

/// Appends the decimal notation of `n` to `out`.
pub fn push_signed_decimal(out: &mut String, n: i64)
    ensures
        final(out)@ == old(out)@ + signed_decimal(n as int),
{
    if n < 0 {
        proof {
            reveal_strlit("-");
        }
        out.append("-");
        assert("-"@ =~= seq!['-']);
        let magnitude: u64 = if n == i64::MIN {
            0x8000_0000_0000_0000
        } else {
            (-n) as u64
        };
        push_decimal(out, magnitude);
        assert(out@ =~= old(out)@ + signed_decimal(n as int));
    } else {
        push_decimal(out, n as u64);
    }
}

/// The decimal notations of the sizes, separated by a comma and a space.
pub open spec fn comma_separated(sizes: Seq<u64>) -> Seq<char>
    decreases sizes.len(),
{
    if sizes.len() == 0 {
        Seq::empty()
    } else if sizes.len() == 1 {
        decimal(sizes[0] as nat)
    } else {
        comma_separated(sizes.drop_last()) + ", "@ + decimal(sizes.last() as nat)
    }
}

/// A list of sizes in square brackets.
pub open spec fn size_list(sizes: Seq<u64>) -> Seq<char> {
    "["@ + comma_separated(sizes) + "]"@
}

/// Appends the list of sizes, in square brackets, to `out`.
pub fn push_size_list(out: &mut String, sizes: &[u64])
    ensures
        final(out)@ == old(out)@ + size_list(sizes@),
{
    out.append("[");
    let mut i: usize = 0;
    assert(sizes@.take(0) =~= Seq::<u64>::empty());
    while i < sizes.len()
        invariant
            i <= sizes@.len(),
            out@ == old(out)@ + "["@ + comma_separated(sizes@.take(i as int)),
        decreases sizes@.len() - i,
    {
        let ghost before = out@;
        let ghost done = sizes@.take(i as int);
        let ghost next = sizes@.take(i + 1);
        if i > 0 {
            out.append(", ");
        }
        push_decimal(out, sizes[i]);
        proof {
            assert(next.drop_last() =~= done);
            assert(next.last() == sizes@[i as int]);
            if i == 0 {
                assert(comma_separated(done) =~= Seq::<char>::empty());
                assert(next[0] == sizes@[0]);
            }
            assert(out@ =~= old(out)@ + "["@ + comma_separated(next));
        }
        i += 1;
    }
    assert(sizes@.take(sizes@.len() as int) =~= sizes@);
    out.append("]");
    assert(out@ =~= old(out)@ + size_list(sizes@));
}

/// Whether two strings hold the same text.
pub fn same_text(a: &str, b: &str) -> (same: bool)
    ensures
        same == (a@ == b@),
{
    a.to_owned() == b.to_owned()
}

} // verus!
