//! Small text utilities: views of string lists, concatenation, decimal numerals.

use vstd::prelude::*;
use vstd::string::StringExecFns;

verus! {

/// The character sequences held by a list of strings.
pub open spec fn texts(strings: Seq<String>) -> Seq<Seq<char>> {
    strings.map_values(|s: String| s@)
}

/// The character for a decimal digit.
pub open spec fn digit_char(digit: nat) -> char {
    (48 + digit) as char
}

/// The decimal numeral of a natural number, without leading zeros.
pub open spec fn decimal(n: nat) -> Seq<char>
    decreases n,
{
    if n < 10 {
        seq![digit_char(n)]
    } else {
        decimal(n / 10).push(digit_char(n % 10))
    }
}

/// Flattening what `f` makes of the first `i + 1` items appends what it makes of
/// item `i` to the flattening for the first `i`.
pub proof fn lemma_flat_map_take_next<A, B>(items: Seq<A>, f: spec_fn(A) -> Seq<B>, i: int)
    requires
        0 <= i < items.len(),
    ensures
        items.take(i + 1).map_values(f).flatten() == items.take(i).map_values(f).flatten() + f(
            items[i],
        ),
{
    assert(items.take(i + 1).map_values(f) =~= items.take(i).map_values(f).push(f(items[i])));
    items.take(i).map_values(f).lemma_flatten_push(f(items[i]));
}

/// Taking one more element of a list of strings appends its text.
pub proof fn lemma_texts_take_next(strings: Seq<String>, i: int)
    requires
        0 <= i < strings.len(),
    ensures
        texts(strings.take(i + 1)) == texts(strings.take(i)).push(strings[i]@),
        texts(strings.take(i + 1)).flatten() == texts(strings.take(i)).flatten() + strings[i]@,
{
    assert(texts(strings.take(i + 1)) =~= texts(strings.take(i)).push(strings[i]@));
    texts(strings.take(i)).lemma_flatten_push(strings[i]@);
}

/// `prefix` followed by `local`.
pub fn prefixed(prefix: &str, local: &str) -> (out: String)
    ensures
        out@ == prefix@ + local@,
{
    let mut out = String::from_str(prefix);
    out.append(local);
    out
}

/// All the strings of `parts`, one after the other, with nothing between them.
pub fn concat_all(parts: &Vec<String>) -> (out: String)
    ensures
        out@ == texts(parts@).flatten(),
{
    let mut out = String::new();
    let mut i: usize = 0;
    while i < parts.len()
        invariant
            i <= parts.len(),
            out@ == texts(parts@.take(i as int)).flatten(),
        decreases parts.len() - i,
    {
        proof {
            lemma_texts_take_next(parts@, i as int);
        }
        out.append(parts[i].as_str());
        i = i + 1;
    }
    assert(parts@.take(parts.len() as int) =~= parts@);
    out
}

fn digit_str(digit: usize) -> (out: &'static str)
    requires
        digit < 10,
    ensures
        out@ == seq![digit_char(digit as nat)],
{
    proof {
        reveal_strlit("0");
        reveal_strlit("1");
        reveal_strlit("2");
        reveal_strlit("3");
        reveal_strlit("4");
        reveal_strlit("5");
        reveal_strlit("6");
        reveal_strlit("7");
        reveal_strlit("8");
        reveal_strlit("9");
    }
    let out = match digit {
        0 => "0",
        1 => "1",
        2 => "2",
        3 => "3",
        4 => "4",
        5 => "5",
        6 => "6",
        7 => "7",
        8 => "8",
        _ => "9",
    };
    out
}

/// The decimal numeral of `n`.
pub fn decimal_string(n: usize) -> (out: String)
    ensures
        out@ == decimal(n as nat),
    decreases n,
{
    if n < 10 {
        String::from_str(digit_str(n))
    } else {
        let mut out = decimal_string(n / 10);
        out.append(digit_str(n % 10));
        out
    }
}

} // verus!
