//! Message identifiers: `msg_` followed by the decimal value of a counter.
use vstd::prelude::*;
use vstd::string::StringExecFns;

verus! {

/// The character of the decimal digit `d` (for `d < 10`).
pub open spec fn digit_char(d: nat) -> char {
    if d == 0 {
        '0'
    } else if d == 1 {
        '1'
    } else if d == 2 {
        '2'
    } else if d == 3 {
        '3'
    } else if d == 4 {
        '4'
    } else if d == 5 {
        '5'
    } else if d == 6 {
        '6'
    } else if d == 7 {
        '7'
    } else if d == 8 {
        '8'
    } else {
        '9'
    }
}

/// The decimal notation of `n`, most significant digit first, without leading zeros.
pub open spec fn decimal(n: nat) -> Seq<char>
    decreases n,
{
    if n < 10 {
        seq![digit_char(n)]
    } else {
        decimal(n / 10) + seq![digit_char(n % 10)]
    }
}

/// The identifier given to the message numbered `n`.
pub open spec fn msg_id_of(n: nat) -> Seq<char> {
    seq!['m', 's', 'g', '_'] + decimal(n)
}

proof fn lemma_decimal_len(n: nat)
    ensures
        decimal(n).len() >= 1,
        n >= 10 ==> decimal(n).len() >= 2,
    decreases n,
{
    if n >= 10 {
        lemma_decimal_len(n / 10);
    }
}

/// Different numbers have different decimal notations.
pub proof fn lemma_decimal_injective(a: nat, b: nat)
    requires
        decimal(a) == decimal(b),
    ensures
        a == b,
    decreases a,
{
    lemma_decimal_len(a);
    lemma_decimal_len(b);
    if a < 10 && b < 10 {
        assert(seq![digit_char(a)][0] == digit_char(a));
        assert(seq![digit_char(b)][0] == digit_char(b));
    } else if a >= 10 && b >= 10 {
        let da = decimal(a);
        let db = decimal(b);
        assert(da.last() == digit_char(a % 10));
        assert(db.last() == digit_char(b % 10));
        assert(decimal(a / 10) =~= da.drop_last());
        assert(decimal(b / 10) =~= db.drop_last());
        lemma_decimal_injective(a / 10, b / 10);
        assert(a == b) by (nonlinear_arith)
            requires a / 10 == b / 10, a % 10 == b % 10;
    } else {
        assert(decimal(a).len() != decimal(b).len());
    }
}

/// Decimal digits are the characters `'0'` to `'9'` in order, and the notation of
/// a number ends in the digit of its remainder by ten after the notation of its
/// quotient by ten, a number below ten being written with its one digit.
pub proof fn lemma_decimal_digits(n: nat)
    ensures
        forall|d: nat| d < 10 ==> #[trigger] digit_char(d) as int == 48 + d,
        decimal(n).last() == digit_char(n % 10),
        n < 10 ==> decimal(n).len() == 1,
        n >= 10 ==> decimal(n).drop_last() == decimal(n / 10),
{
    if n >= 10 {
        assert(decimal(n).drop_last() =~= decimal(n / 10));
    }
}

/// A message identifier is `msg_` followed by the decimal notation of its number.
pub proof fn lemma_msg_id_text(n: nat)
    ensures
        msg_id_of(n).len() == 4 + decimal(n).len(),
        msg_id_of(n).take(4) == seq!['m', 's', 'g', '_'],
        msg_id_of(n).skip(4) == decimal(n),
{
    assert(msg_id_of(n).take(4) =~= seq!['m', 's', 'g', '_']);
    assert(msg_id_of(n).skip(4) =~= decimal(n));
}

/// Two messages numbered differently never share an identifier.
pub proof fn lemma_msg_ids_distinct(a: nat, b: nat)
    requires
        a != b,
    ensures
        msg_id_of(a) != msg_id_of(b),
{
    if msg_id_of(a) == msg_id_of(b) {
        assert(decimal(a) =~= msg_id_of(a).skip(4));
        assert(decimal(b) =~= msg_id_of(b).skip(4));
        lemma_decimal_injective(a, b);
    }
}

fn digit_str(d: u64) -> (s: &'static str)
    requires
        d < 10,
    ensures
        s@ == seq![digit_char(d as nat)],
{
    if d == 0 {
        proof { reveal_strlit("0"); }
        "0"
    } else if d == 1 {
        proof { reveal_strlit("1"); }
        "1"
    } else if d == 2 {
        proof { reveal_strlit("2"); }
        "2"
    } else if d == 3 {
        proof { reveal_strlit("3"); }
        "3"
    } else if d == 4 {
        proof { reveal_strlit("4"); }
        "4"
    } else if d == 5 {
        proof { reveal_strlit("5"); }
        "5"
    } else if d == 6 {
        proof { reveal_strlit("6"); }
        "6"
    } else if d == 7 {
        proof { reveal_strlit("7"); }
        "7"
    } else if d == 8 {
        proof { reveal_strlit("8"); }
        "8"
    } else {
        proof { reveal_strlit("9"); }
        "9"
    }
}

/// The decimal notation of `n`, as `n.to_string()` writes it.
pub fn decimal_string(n: u64) -> (s: String)
    ensures
        s@ == decimal(n as nat),
    decreases n,
{
    if n < 10 {
        digit_str(n).to_owned()
    } else {
        let mut s = decimal_string(n / 10);
        s.append(digit_str(n % 10));
        s
    }
}

/// The identifier of the message numbered `n`, as `format!("msg_{}", n)` writes it.
pub fn msg_id_text(n: u64) -> (s: String)
    ensures
        s@ == msg_id_of(n as nat),
{
    let mut s = "msg_".to_owned();
    proof { reveal_strlit("msg_"); }
    let digits = decimal_string(n);
    s.append(digits.as_str());
    s
}

} // verus!
