//! The record of an iteration order: one label `<position>:<repr>` per key.
use vstd::prelude::*;

verus! {

/// The decimal digits.
pub const DIGITS: &'static str = "0123456789";

/// The character of the decimal digit `d`.
pub open spec fn digit_char(d: nat) -> char {
    seq!['0', '1', '2', '3', '4', '5', '6', '7', '8', '9'][d as int]
}

/// The decimal notation of `n`, without leading zeros.
pub open spec fn decimal(n: nat) -> Seq<char>
    decreases n,
{
    if n < 10 {
        seq![digit_char(n)]
    } else {
        decimal(n / 10) + seq![digit_char(n % 10)]
    }
}

/// The label of the key at position `i` whose representation is `repr`.
pub open spec fn order_label(i: nat, repr: Seq<char>) -> Seq<char> {
    decimal(i) + ":"@ + repr
}

/// Appends the decimal notation of `n` to `out`.
pub fn push_decimal(out: &mut String, n: usize)
    ensures
        final(out)@ == old(out)@ + decimal(n as nat),
    decreases n,
{
    if n >= 10 {
        push_decimal(out, n / 10);
    }
    let d = n % 10;
    proof {
        reveal_strlit("0123456789");
    }
    let digit = DIGITS.substring_char(d, d + 1);
    assert(digit@ =~= seq![digit_char(d as nat)]);
    let ghost before = out@;
    out.append(digit);
    proof {
        if n >= 10 {
            assert(decimal(n as nat) == decimal((n / 10) as nat) + seq![digit_char((n % 10) as nat)]);
        }
    }
    assert(out@ =~= old(out)@ + decimal(n as nat));
}

/// The labels of keys met in the given order, each `<position>:<repr>`
/// with positions counted from 0.
pub fn iteration_order_labels(reprs: &Vec<String>) -> (res: Vec<String>)
    ensures
        res@.len() == reprs@.len(),
        forall|i: int| 0 <= i < reprs@.len() ==> #[trigger] res@[i]@ == order_label(i as nat, reprs@[i]@),
{
    let mut res: Vec<String> = Vec::new();
    let n = reprs.len();
    for i in 0..n
        invariant
            n == reprs@.len(),
            res@.len() == i,
            forall|j: int| 0 <= j < i ==> #[trigger] res@[j]@ == order_label(j as nat, reprs@[j]@),
    {
        let mut label = String::new();
        push_decimal(&mut label, i);
        label.append(":");
        label.append(reprs[i].as_str());
        res.push(label);
    }
    res
}

} // verus!
