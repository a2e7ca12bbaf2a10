//! Views of options and sequences of strings, and the pieces that labels are made of.
use vstd::prelude::*;

verus! {

/// The view of an optional value.
pub open spec fn opt_view<T: View>(value: Option<T>) -> Option<T::V> {
    match value {
        Some(inner) => Some(inner@),
        None => None,
    }
}

/// The views of the items of a sequence.
pub open spec fn seq_view<T: View>(items: Seq<T>) -> Seq<T::V> {
    Seq::new(items.len(), |i: int| items[i]@)
}

/// The decimal digit for a number below ten.
pub open spec fn digit(n: nat) -> char {
    (('0' as nat) + n) as char
}

/// A number in decimal notation, without leading zeros.
pub open spec fn decimal(n: nat) -> Seq<char>
    decreases n,
{
    if n < 10 {
        seq![digit(n)]
    } else {
        decimal(n / 10).push(digit(n % 10))
    }
}

/// The characters of a text, by position.
pub fn chars_of(text: &str) -> (chars: Vec<char>)
    ensures
        chars@ == text@,
{
    let mut chars: Vec<char> = Vec::new();
    for c in it: text.chars()
        invariant
            it.seq() == text@,
            chars@ == text@.take(it.index() as int),
    {
        chars.push(c);
    }
    chars
}

/// Appends one decimal digit.
fn append_digit(text: &mut String, n: u64)
    requires
        n < 10,
    ensures
        final(text)@ == old(text)@.push(digit(n as nat)),
{
    let piece: &str = match n {
        0 => "0",
        1 => "1",
        2 => "2",
        3 => "3",
        4 => "4",
        5 => "5",
        6 => "6",
        7 => "7",
        8 => "8",
        _ => "9",
    };
    proof {
        reveal_strlit("0");
        reveal_strlit("1");
        reveal_strlit("2");
        reveal_strlit("3");
        reveal_strlit("4");
        reveal_strlit("5");
        reveal_strlit("6");
        reveal_strlit("7");
        reveal_strlit("8");
        reveal_strlit("9");
        assert(piece@ =~= seq![digit(n as nat)]);
    }
    text.append(piece);
    assert(text@ =~= old(text)@.push(digit(n as nat)));
}

/// Appends a number in decimal notation.
pub fn append_decimal(text: &mut String, n: u64)
    ensures
        final(text)@ == old(text)@ + decimal(n as nat),
    decreases n,
{
    if n >= 10 {
        append_decimal(text, n / 10);
    }
    append_digit(text, n % 10);
    assert(text@ =~= old(text)@ + decimal(n as nat));
}

/// The number that a text of decimal digits stands for: each digit counts for ten times the one
/// behind it.
pub open spec fn numeral_value(text: Seq<char>) -> nat
    decreases text.len(),
{
    if text.len() == 0 {
        0
    } else {
        10 * numeral_value(text.drop_last()) + (text.last() as nat - '0' as nat) as nat
    }
}

/// Whether a text is a numeral: decimal digits, at least one, the first not a zero that could be
/// left out.
pub open spec fn is_numeral(text: Seq<char>) -> bool {
    &&& text.len() > 0
    &&& forall|i: int| 0 <= i < text.len() ==> '0' <= #[trigger] text[i] <= '9'
    &&& text.len() > 1 ==> text[0] != '0'
}

/// The decimal notation of a number is a numeral, and the number is what it stands for.
pub proof fn law_decimal_value(n: nat)
    ensures
        is_numeral(decimal(n)),
        numeral_value(decimal(n)) == n,
        n > 0 ==> decimal(n)[0] != '0',
    decreases n,
{
    reveal_with_fuel(numeral_value, 2);
    if n < 10 {
        assert(decimal(n).drop_last() =~= Seq::empty());
    } else {
        law_decimal_value(n / 10);
        let front = decimal(n / 10);
        assert(decimal(n).drop_last() =~= front);
        assert(decimal(n)[0] == front[0]);
        assert forall|i: int| 0 <= i < decimal(n).len() implies '0' <= #[trigger] decimal(n)[i]
            <= '9' by {
            if i < front.len() {
                assert(decimal(n)[i] == front[i]);
            }
        }
    }
}

/// There is one numeral for each number: its decimal notation.
pub proof fn law_decimal_unique(text: Seq<char>)
    requires
        is_numeral(text),
    ensures
        decimal(numeral_value(text)) == text,
        numeral_value(text) == 0 ==> text == seq!['0'],
    decreases text.len(),
{
    reveal_with_fuel(numeral_value, 2);
    let front = text.drop_last();
    let last = (text.last() as nat - '0' as nat) as nat;
    assert(digit(last) == text.last());
    if text.len() == 1 {
        assert(front =~= Seq::empty());
        assert(text =~= seq![text.last()]);
    } else {
        assert(front[0] == text[0]);
        assert forall|i: int| 0 <= i < front.len() implies '0' <= #[trigger] front[i] <= '9' by {
            assert(front[i] == text[i]);
        }
        law_decimal_unique(front);
        assert(numeral_value(front) > 0);
        let n = numeral_value(text);
        assert(n / 10 == numeral_value(front) && n % 10 == last) by (nonlinear_arith)
            requires
                n == 10 * numeral_value(front) + last,
                last < 10,
        ;
        assert(text =~= front.push(text.last()));
    }
}

/// An optional value has a view where it is there, the view of the value.
pub proof fn law_opt_view<T: View>(value: Option<T>)
    ensures
        (opt_view(value) is Some) == (value is Some),
        value is Some ==> opt_view(value)->0 == value->0@,
{
}

/// The views of the items of a sequence stand at the places of the items.
pub proof fn law_seq_view<T: View>(items: Seq<T>)
    ensures
        seq_view(items).len() == items.len(),
        forall|i: int| 0 <= i < items.len() ==> #[trigger] seq_view(items)[i] == items[i]@,
{
}

} // verus!
