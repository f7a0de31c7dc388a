//! Character-sequence building blocks of the renderer: runs of one character,
//! left-justified padding, decimal rendering of values, and the longest length
//! of a family of labels.

use vstd::prelude::*;

verus! {

/// `n` copies of the character `c`.
pub open spec fn char_run(c: char, n: nat) -> Seq<char> {
    Seq::new(n, |i: int| c)
}

/// `n` spaces.
pub open spec fn blanks(n: nat) -> Seq<char> {
    char_run(' ', n)
}

/// `label` left-justified in a field of `w` characters (meaningful when
/// `label` is no longer than `w`).
pub open spec fn padded(label: Seq<char>, w: nat) -> Seq<char> {
    label + blanks((w - label.len()) as nat)
}

/// The digit character for `d` in `0..10`.
pub open spec fn digit_char(d: nat) -> char {
    if d == 0 {
        '0'
    } else if d == 1 {
        '1'
    } else if d == 2 {
        '2'
    } else if d == 3 {
        '3'
    } else if d == 4 {
        '4'
    } else if d == 5 {
        '5'
    } else if d == 6 {
        '6'
    } else if d == 7 {
        '7'
    } else if d == 8 {
        '8'
    } else {
        '9'
    }
}

/// The decimal representation of `v`, most significant digit first, without
/// leading zeroes (`0` itself is the single digit `0`).
pub open spec fn decimal(v: nat) -> Seq<char>
    decreases v,
{
    if v < 10 {
        seq![digit_char(v)]
    } else {
        decimal(v / 10) + seq![digit_char(v % 10)]
    }
}

/// How many decimal digits `v` occupies.
pub open spec fn digit_count(v: nat) -> nat
    decreases v,
{
    if v < 10 {
        1
    } else {
        1 + digit_count(v / 10)
    }
}

/// The length of the longest text in `ls` (0 when `ls` is empty).
pub open spec fn longest_len(ls: Seq<Seq<char>>) -> nat
    decreases ls.len(),
{
    if ls.len() == 0 {
        0
    } else {
        let rest = longest_len(ls.drop_last());
        if ls.last().len() > rest {
            ls.last().len()
        } else {
            rest
        }
    }
}

/// Every text in `ls` fits within the longest length.
pub proof fn lemma_longest_len_bounds(ls: Seq<Seq<char>>, i: int)
    requires
        0 <= i < ls.len(),
    ensures
        ls[i].len() <= longest_len(ls),
    decreases ls.len(),
{
    if i < ls.len() - 1 {
        lemma_longest_len_bounds(ls.drop_last(), i);
    }
}

/// Extending a family of texts by one more text raises the longest length to
/// that text's length where it is longer, and keeps it otherwise.
pub proof fn lemma_longest_len_step(ls: Seq<Seq<char>>, i: int)
    requires
        0 <= i < ls.len(),
    ensures
        longest_len(ls.take(i + 1)) == if ls[i].len() > longest_len(ls.take(i)) {
            ls[i].len()
        } else {
            longest_len(ls.take(i))
        },
{
    assert(ls.take(i + 1).drop_last() =~= ls.take(i));
    assert(ls.take(i + 1).last() == ls[i]);
}

pub fn digit_str(d: u32) -> (r: &'static str)
    requires
        d < 10,
    ensures
        r@ == seq![digit_char(d as nat)],
{
    proof {
        reveal_strlit("0");
        reveal_strlit("1");
        reveal_strlit("2");
        reveal_strlit("3");
        reveal_strlit("4");
        reveal_strlit("5");
        reveal_strlit("6");
        reveal_strlit("7");
        reveal_strlit("8");
        reveal_strlit("9");
    }
    let r: &'static str = if d == 0 {
        "0"
    } else if d == 1 {
        "1"
    } else if d == 2 {
        "2"
    } else if d == 3 {
        "3"
    } else if d == 4 {
        "4"
    } else if d == 5 {
        "5"
    } else if d == 6 {
        "6"
    } else if d == 7 {
        "7"
    } else if d == 8 {
        "8"
    } else {
        "9"
    };
    proof {
        assert(r@ =~= seq![digit_char(d as nat)]);
    }
    r
}

/// Renders `v` in decimal, exactly as the numeric suffix of a bar prints it.
pub fn u32_decimal(v: u32) -> (r: String)
    ensures
        r@ == decimal(v as nat),
    decreases v,
{
    if v < 10 {
        String::from_str(digit_str(v))
    } else {
        let prefix = u32_decimal(v / 10);
        prefix.concat(digit_str(v % 10))
    }
}

/// Powers of ten, for bounding digit counts.
pub open spec fn pow10(k: nat) -> nat
    decreases k,
{
    if k == 0 {
        1
    } else {
        10 * pow10((k - 1) as nat)
    }
}

/// A value below the `k`-th power of ten has at most `k` digits.
pub proof fn lemma_digit_count_bounded(v: nat, k: nat)
    requires
        1 <= k,
        v < pow10(k),
    ensures
        digit_count(v) <= k,
    decreases k,
{
    if v >= 10 {
        reveal_with_fuel(pow10, 2);
        assert(pow10(1) == 10);
        if k == 1 {
            assert(false);
        }
        assert(pow10(k) == 10 * pow10((k - 1) as nat));
        assert(v / 10 < pow10((k - 1) as nat)) by {
            vstd::arithmetic::div_mod::lemma_multiply_divide_lt(
                v as int,
                10,
                pow10((k - 1) as nat) as int,
            );
        }
        lemma_digit_count_bounded(v / 10, (k - 1) as nat);
    }
}

/// Counts the decimal digits of `v`: the width a bar's numeric suffix needs.
pub fn count_digits(v: u32) -> (r: u32)
    ensures
        r == digit_count(v as nat),
        r <= 10,
    decreases v,
{
    if v < 10 {
        1
    } else {
        let sub = count_digits(v / 10);
        proof {
            reveal_with_fuel(pow10, 11);
            assert(pow10(9) == 1000000000);
            assert(((v / 10) as nat) < pow10(9));
            lemma_digit_count_bounded((v / 10) as nat, 9);
        }
        1 + sub
    }
}

/// The length of the longest text in `texts`, in characters.
pub fn longest_text_len(texts: &Vec<String>) -> (r: usize)
    ensures
        r == longest_len(texts.deep_view()),
{
    let mut m: usize = 0;
    let mut i: usize = 0;
    proof {
        assert(texts.deep_view().take(0) =~= Seq::<Seq<char>>::empty());
    }
    while i < texts.len()
        invariant
            i <= texts.len(),
            texts.deep_view().len() == texts.len(),
            m == longest_len(texts.deep_view().take(i as int)),
        decreases texts.len() - i,
    {
        let l = texts[i].as_str().unicode_len();
        proof {
            lemma_longest_len_step(texts.deep_view(), i as int);
            assert(texts.deep_view()[i as int] == texts[i as int]@);
        }
        if l > m {
            m = l;
        }
        i = i + 1;
    }
    proof {
        assert(texts.deep_view().take(texts.len() as int) =~= texts.deep_view());
    }
    m
}

/// A run of `n` spaces, as row padding and the blanked redraw region use it.
pub fn space_string(n: usize) -> (r: String)
    ensures
        r@ == blanks(n as nat),
{
    let mut s = String::new();
    let mut i: usize = 0;
    proof {
        assert(s@ =~= blanks(0));
    }
    while i < n
        invariant
            i <= n,
            s@ == blanks(i as nat),
        decreases n - i,
    {
        s.append(" ");
        proof {
            reveal_strlit(" ");
            assert(s@ =~= blanks((i + 1) as nat));
        }
        i = i + 1;
    }
    s
}

} // verus!
