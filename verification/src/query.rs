//! Query parameters as an ordered list of key/value pairs.
//!
//! A query is modelled as `Seq<(Seq<char>, Seq<char>)>`: the pairs in the
//! order in which they are sent. The executable form is a
//! `Vec<(String, String)>`, whose `deep_view` is that sequence.

use vstd::prelude::*;

verus! {

/// The model of a query: its pairs, in order.
pub type Pairs = Seq<(Seq<char>, Seq<char>)>;

/// The pairs of a field that is sent once when present and left out when
/// absent.
pub open spec fn optional_pair(key: Seq<char>, value: Option<Seq<char>>) -> Pairs {
    match value {
        Some(text) => seq![(key, text)],
        None => Seq::empty(),
    }
}

/// The pairs of a field that is sent once for each of its values, under the
/// same key and in the order of the values.
pub open spec fn repeated_pairs(key: Seq<char>, values: Seq<Seq<char>>) -> Pairs {
    Seq::new(values.len(), |i: int| (key, values[i]))
}

/// The test for a pair that stands under `key`.
pub open spec fn has_key(key: Seq<char>) -> spec_fn((Seq<char>, Seq<char>)) -> bool {
    |pair: (Seq<char>, Seq<char>)| pair.0 == key
}

/// The pairs of `query` whose key is `key`, in their order.
pub open spec fn pairs_under(query: Pairs, key: Seq<char>) -> Pairs {
    query.filter(has_key(key))
}

/// The character of a decimal digit.
pub open spec fn digit_char(digit: nat) -> char
    recommends
        digit < 10,
{
    if digit == 0 {
        '0'
    } else if digit == 1 {
        '1'
    } else if digit == 2 {
        '2'
    } else if digit == 3 {
        '3'
    } else if digit == 4 {
        '4'
    } else if digit == 5 {
        '5'
    } else if digit == 6 {
        '6'
    } else if digit == 7 {
        '7'
    } else if digit == 8 {
        '8'
    } else {
        '9'
    }
}

/// The decimal numeral of `n`, without leading zeros.
pub open spec fn decimal(n: nat) -> Seq<char>
    decreases n,
{
    if n < 10 {
        seq![digit_char(n)]
    } else {
        decimal(n / 10).push(digit_char(n % 10))
    }
}

/// Appends the pair `(key, value)` to `out`.
pub fn push_pair(out: &mut Vec<(String, String)>, key: &str, value: &str)
    ensures
        final(out).deep_view() == old(out).deep_view().push((key@, value@)),
{
    let ghost before = out.deep_view();
    out.push((key.to_owned(), value.to_owned()));
    assert(out.deep_view() =~= before.push((key@, value@)));
}

/// Appends the pair `(key, value)` to `out` where a value is present.
pub fn push_optional(out: &mut Vec<(String, String)>, key: &str, value: Option<&str>)
    ensures
        final(out).deep_view() == old(out).deep_view() + optional_pair(
            key@,
            match value {
                Some(text) => Some(text@),
                None => None,
            },
        ),
{
    match value {
        Some(text) => {
            push_pair(out, key, text);
        },
        None => {},
    }
}

/// The text of one decimal digit.
fn digit_text(digit: u32) -> (text: &'static str)
    requires
        digit < 10,
    ensures
        text@ == seq![digit_char(digit as nat)],
{
    proof {
        reveal_strlit("0");
        reveal_strlit("1");
        reveal_strlit("2");
        reveal_strlit("3");
        reveal_strlit("4");
        reveal_strlit("5");
        reveal_strlit("6");
        reveal_strlit("7");
        reveal_strlit("8");
        reveal_strlit("9");
    }
    let text = if digit == 0 {
        "0"
    } else if digit == 1 {
        "1"
    } else if digit == 2 {
        "2"
    } else if digit == 3 {
        "3"
    } else if digit == 4 {
        "4"
    } else if digit == 5 {
        "5"
    } else if digit == 6 {
        "6"
    } else if digit == 7 {
        "7"
    } else if digit == 8 {
        "8"
    } else {
        "9"
    };
    assert(text@ =~= seq![digit_char(digit as nat)]);
    text
}

/// Appends the decimal numeral of `n` to `out`.
fn append_decimal(out: &mut String, n: u32)
    ensures
        final(out)@ == old(out)@ + decimal(n as nat),
    decreases n,
{
    if n >= 10 {
        append_decimal(out, n / 10);
    }
    out.append(digit_text(n % 10));
    assert(out@ =~= old(out)@ + decimal(n as nat));
}

/// The decimal numeral of `n`.
pub fn decimal_text(n: u32) -> (text: String)
    ensures
        text@ == decimal(n as nat),
{
    let mut text = String::new();
    append_decimal(&mut text, n);
    assert(text@ =~= decimal(n as nat));
    text
}

/// A query of pairs that all stand under `key` is kept whole by
/// `pairs_under`.
pub proof fn lemma_under_repeated(key: Seq<char>, values: Seq<Seq<char>>)
    ensures
        pairs_under(repeated_pairs(key, values), key) == repeated_pairs(key, values),
    decreases values.len(),
{
    reveal(Seq::filter);
    let all = repeated_pairs(key, values);
    if values.len() > 0 {
        let front = values.drop_last();
        lemma_under_repeated(key, front);
        assert(all.drop_last() =~= repeated_pairs(key, front));
        assert(pairs_under(all, key) =~= all);
    } else {
        assert(pairs_under(all, key) =~= all);
    }
}

/// A single pair under another key is dropped by `pairs_under`.
pub proof fn lemma_under_other(key: Seq<char>, other: Seq<char>, value: Seq<char>)
    requires
        other != key,
    ensures
        pairs_under(seq![(other, value)], key) == Seq::<(Seq<char>, Seq<char>)>::empty(),
{
    reveal_with_fuel(Seq::filter, 2);
    let one = seq![(other, value)];
    assert(one.drop_last() =~= Seq::empty());
    assert(one.last() == (other, value));
    assert(pairs_under(one, key) =~= Seq::<(Seq<char>, Seq<char>)>::empty());
}

/// An optional field under another key is dropped by `pairs_under`.
pub proof fn lemma_under_optional(key: Seq<char>, other: Seq<char>, value: Option<Seq<char>>)
    requires
        other != key,
    ensures
        pairs_under(optional_pair(other, value), key) == Seq::<(Seq<char>, Seq<char>)>::empty(),
{
    match value {
        Some(text) => {
            lemma_under_other(key, other, text);
        },
        None => {
            reveal(Seq::filter);
        },
    }
}

} // verus!
