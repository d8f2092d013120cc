use vstd::prelude::*;
use vstd::string::StringExecFns;

verus! {

/// The character for one decimal digit.
pub open spec fn digit_char(d: nat) -> char {
    if d == 0 {
        '0'
    } else if d == 1 {
        '1'
    } else if d == 2 {
        '2'
    } else if d == 3 {
        '3'
    } else if d == 4 {
        '4'
    } else if d == 5 {
        '5'
    } else if d == 6 {
        '6'
    } else if d == 7 {
        '7'
    } else if d == 8 {
        '8'
    } else {
        '9'
    }
}

/// The decimal numeral of `n`, most significant digit first, no sign and no
/// leading zero (except for `n == 0` itself).
pub open spec fn dec_of(n: nat) -> Seq<char>
    decreases n,
{
    if n < 10 {
        seq![digit_char(n)]
    } else {
        dec_of(n / 10) + seq![digit_char(n % 10)]
    }
}

/// The marker identifier of the positional field with index `i`.
pub open spec fn pos_marker_of(i: nat) -> Seq<char> {
    "_"@ + dec_of(i)
}

/// A numeral is never empty, and has at least two digits from ten upward.
pub proof fn lemma_dec_of_len(n: nat)
    ensures
        dec_of(n).len() >= 1,
        n >= 10 ==> dec_of(n).len() >= 2,
    decreases n,
{
    if n >= 10 {
        lemma_dec_of_len(n / 10);
    }
}

/// Distinct numbers have distinct numerals.
pub proof fn lemma_dec_of_injective(a: nat, b: nat)
    ensures
        dec_of(a) == dec_of(b) ==> a == b,
    decreases a,
{
    if dec_of(a) == dec_of(b) {
        lemma_dec_of_len(a);
        lemma_dec_of_len(b);
        if a < 10 && b < 10 {
            assert(dec_of(a)[0] == digit_char(a));
            assert(dec_of(b)[0] == digit_char(b));
        } else if a < 10 {
            assert(dec_of(a).len() == 1);
        } else if b < 10 {
            assert(dec_of(b).len() == 1);
        } else {
            assert(dec_of(a).last() == digit_char(a % 10));
            assert(dec_of(b).last() == digit_char(b % 10));
            assert(a % 10 == b % 10);
            assert(dec_of(a).drop_last() =~= dec_of(a / 10));
            assert(dec_of(b).drop_last() =~= dec_of(b / 10));
            lemma_dec_of_injective(a / 10, b / 10);
            assert(a == 10 * (a / 10) + a % 10);
            assert(b == 10 * (b / 10) + b % 10);
        }
    }
}

/// Distinct positional indices get distinct marker identifiers.
pub proof fn lemma_pos_markers_distinct(i: nat, j: nat)
    ensures
        i != j ==> pos_marker_of(i) != pos_marker_of(j),
{
    if i != j && pos_marker_of(i) == pos_marker_of(j) {
        reveal_strlit("_");
        assert(dec_of(i) =~= pos_marker_of(i).subrange(1, pos_marker_of(i).len() as int));
        assert(dec_of(j) =~= pos_marker_of(j).subrange(1, pos_marker_of(j).len() as int));
        lemma_dec_of_injective(i, j);
    }
}

/// One decimal digit as text.
fn digit_str(d: usize) -> (r: &'static str)
    requires
        d < 10,
    ensures
        r@ == seq![digit_char(d as nat)],
{
    proof {
        reveal_strlit("0");
        reveal_strlit("1");
        reveal_strlit("2");
        reveal_strlit("3");
        reveal_strlit("4");
        reveal_strlit("5");
        reveal_strlit("6");
        reveal_strlit("7");
        reveal_strlit("8");
        reveal_strlit("9");
    }
    let r: &'static str = if d == 0 {
        "0"
    } else if d == 1 {
        "1"
    } else if d == 2 {
        "2"
    } else if d == 3 {
        "3"
    } else if d == 4 {
        "4"
    } else if d == 5 {
        "5"
    } else if d == 6 {
        "6"
    } else if d == 7 {
        "7"
    } else if d == 8 {
        "8"
    } else {
        "9"
    };
    proof {
        assert(r@ =~= seq![digit_char(d as nat)]);
    }
    r
}

/// Renders `n` in decimal.
pub fn dec_string(n: usize) -> (s: String)
    ensures
        s@ == dec_of(n as nat),
    decreases n,
{
    if n < 10 {
        String::from_str(digit_str(n))
    } else {
        let mut s = dec_string(n / 10);
        s.append(digit_str(n % 10));
        proof {
            assert(s@ =~= dec_of(n as nat));
        }
        s
    }
}

/// Renders the marker identifier of the positional field with index `i`.
pub fn pos_marker(i: usize) -> (s: String)
    ensures
        s@ == pos_marker_of(i as nat),
{
    let mut s = String::from_str("_");
    let d = dec_string(i);
    s.append(d.as_str());
    s
}

} // verus!
