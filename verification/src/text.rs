//! Text building blocks shared by the emitter: separated lists and decimal
//! numerals.

use vstd::prelude::*;
use vstd::string::*;

verus! {

/// The character sequences of a list of strings, in order.
pub open spec fn texts(items: Seq<String>) -> Seq<Seq<char>> {
    items.map_values(|s: String| s@)
}

/// Appending a string appends its character sequence.
pub proof fn lemma_texts_push(items: Seq<String>, item: String)
    ensures
        texts(items.push(item)) == texts(items).push(item@),
{
    assert(texts(items.push(item)) =~= texts(items).push(item@));
}

/// The texts of `parts` in order, with `sep` between each two neighbours.
pub open spec fn joined(parts: Seq<Seq<char>>, sep: Seq<char>) -> Seq<char>
    decreases parts.len(),
{
    if parts.len() == 0 {
        Seq::empty()
    } else if parts.len() == 1 {
        parts[0]
    } else {
        joined(parts.drop_last(), sep) + sep + parts.last()
    }
}

/// Appending one more part to a non-empty list appends the separator and
/// the part to the joined text.
pub proof fn lemma_joined_push(parts: Seq<Seq<char>>, sep: Seq<char>, part: Seq<char>)
    ensures
        joined(parts.push(part), sep) == if parts.len() == 0 {
            part
        } else {
            joined(parts, sep) + sep + part
        },
{
    assert(parts.push(part).drop_last() =~= parts);
    assert(parts.push(part).last() == part);
}

/// Joins `parts` with `sep` between neighbours.
pub fn join(parts: &Vec<String>, sep: &str) -> (out: String)
    ensures
        out@ == joined(texts(parts@), sep@),
{
    let mut out = String::new();
    let mut i: usize = 0;
    while i < parts.len()
        invariant
            i <= parts.len(),
            out@ == joined(texts(parts@).take(i as int), sep@),
        decreases parts.len() - i,
    {
        proof {
            let all = texts(parts@);
            lemma_joined_push(all.take(i as int), sep@, all[i as int]);
            assert(all.take(i as int).push(all[i as int]) =~= all.take(i + 1));
        }
        if i > 0 {
            out.append(sep);
        }
        out.append(parts[i].as_str());
        i += 1;
    }
    proof {
        assert(texts(parts@).take(parts.len() as int) =~= texts(parts@));
    }
    out
}

/// `text` with `by` after it, or nothing where there is no text.
pub open spec fn followed(text: Seq<char>, by: Seq<char>) -> Seq<char> {
    if text.len() == 0 {
        text
    } else {
        text + by
    }
}

/// `text` with `by` in front of it, or nothing where there is no text.
pub open spec fn preceded(by: Seq<char>, text: Seq<char>) -> Seq<char> {
    if text.len() == 0 {
        text
    } else {
        by + text
    }
}

/// The texts of `parts` in order, with `by` after every one of them.
pub open spec fn each_followed(parts: Seq<Seq<char>>, by: Seq<char>) -> Seq<char> {
    if parts.len() == 0 {
        Seq::empty()
    } else {
        joined(parts, by) + by
    }
}

/// Writes `text` with `by` after it, or nothing where there is no text.
pub fn followed_text(text: &str, by: &str) -> (out: String)
    ensures
        out@ == followed(text@, by@),
{
    let mut out = text.to_string();
    if !text.is_empty() {
        out.append(by);
    }
    out
}

/// Writes `text` with `by` in front of it, or nothing where there is no
/// text.
pub fn preceded_text(by: &str, text: &str) -> (out: String)
    ensures
        out@ == preceded(by@, text@),
{
    if text.is_empty() {
        text.to_string()
    } else {
        let mut out = by.to_string();
        out.append(text);
        out
    }
}

/// Writes `parts` in order with `by` after every one of them.
pub fn join_each(parts: &Vec<String>, by: &str) -> (out: String)
    ensures
        out@ == each_followed(texts(parts@), by@),
{
    let mut out = join(parts, by);
    if parts.len() > 0 {
        out.append(by);
    }
    out
}

/// The numeral of a single decimal digit.
pub open spec fn digit(d: nat) -> Seq<char> {
    if d == 0 {
        "0"@
    } else if d == 1 {
        "1"@
    } else if d == 2 {
        "2"@
    } else if d == 3 {
        "3"@
    } else if d == 4 {
        "4"@
    } else if d == 5 {
        "5"@
    } else if d == 6 {
        "6"@
    } else if d == 7 {
        "7"@
    } else if d == 8 {
        "8"@
    } else {
        "9"@
    }
}

/// The decimal numeral of `n`, without leading zeros.
pub open spec fn decimal(n: nat) -> Seq<char>
    decreases n,
{
    if n < 10 {
        digit(n)
    } else {
        decimal(n / 10) + digit(n % 10)
    }
}

/// Every digit is written with one character, and different digits with
/// different characters.
pub proof fn lemma_digits_differ(a: nat, b: nat)
    requires
        a < 10,
        b < 10,
    ensures
        digit(a).len() == 1,
        digit(a) == digit(b) ==> a == b,
{
    reveal_strlit("0");
    reveal_strlit("1");
    reveal_strlit("2");
    reveal_strlit("3");
    reveal_strlit("4");
    reveal_strlit("5");
    reveal_strlit("6");
    reveal_strlit("7");
    reveal_strlit("8");
    reveal_strlit("9");
    if digit(a) == digit(b) {
        assert(digit(a)[0] == digit(b)[0]);
    }
}

/// A numeral has at least one character, and more than one from ten on.
pub proof fn lemma_decimal_length(n: nat)
    ensures
        decimal(n).len() >= 1,
        n >= 10 ==> decimal(n).len() >= 2,
    decreases n,
{
    if n < 10 {
        lemma_digits_differ(n, n);
    } else {
        lemma_decimal_length(n / 10);
        lemma_digits_differ(n % 10, n % 10);
    }
}

/// Different numbers have different numerals.
pub proof fn lemma_decimal_is_injective(a: nat, b: nat)
    requires
        decimal(a) == decimal(b),
    ensures
        a == b,
    decreases a,
{
    lemma_decimal_length(a);
    lemma_decimal_length(b);
    if a < 10 || b < 10 {
        if a < 10 && b < 10 {
            lemma_digits_differ(a, b);
        } else if a < 10 {
            lemma_digits_differ(a, a);
        } else {
            lemma_digits_differ(b, b);
        }
    } else {
        let head_a = decimal(a / 10);
        let head_b = decimal(b / 10);
        let last_a = digit(a % 10);
        let last_b = digit(b % 10);
        lemma_digits_differ(a % 10, b % 10);
        lemma_digits_differ(b % 10, a % 10);
        assert(decimal(a) == head_a + last_a);
        assert(decimal(b) == head_b + last_b);
        assert(head_a.len() == head_b.len());
        assert(head_a =~= (head_a + last_a).subrange(0, head_a.len() as int));
        assert(head_b =~= (head_b + last_b).subrange(0, head_b.len() as int));
        assert(last_a =~= (head_a + last_a).subrange(head_a.len() as int, head_a.len() as int + 1));
        assert(last_b =~= (head_b + last_b).subrange(head_b.len() as int, head_b.len() as int + 1));
        lemma_decimal_is_injective(a / 10, b / 10);
    }
}

fn digit_text(d: usize) -> (text: &'static str)
    requires
        d < 10,
    ensures
        text@ == digit(d as nat),
{
    if d == 0 {
        "0"
    } else if d == 1 {
        "1"
    } else if d == 2 {
        "2"
    } else if d == 3 {
        "3"
    } else if d == 4 {
        "4"
    } else if d == 5 {
        "5"
    } else if d == 6 {
        "6"
    } else if d == 7 {
        "7"
    } else if d == 8 {
        "8"
    } else {
        "9"
    }
}

/// Writes `n` as a decimal numeral.
pub fn decimal_text(n: usize) -> (out: String)
    ensures
        out@ == decimal(n as nat),
    decreases n,
{
    if n < 10 {
        digit_text(n).to_string()
    } else {
        let mut out = decimal_text(n / 10);
        out.append(digit_text(n % 10));
        out
    }
}

} // verus!
