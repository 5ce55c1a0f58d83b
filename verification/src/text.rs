//! Small verified string utilities: equality, decimal formatting, and a
//! case-insensitive ordering used to present tag defaults.

use vstd::prelude::*;

verus! {

/// True exactly when the two strings hold the same characters.
pub fn str_eq(a: &str, b: &str) -> (r: bool)
    ensures
        r == (a@ == b@),
{
    let alen = a.unicode_len();
    let blen = b.unicode_len();
    if alen != blen {
        return false;
    }
    let mut i: usize = 0;
    while i < alen
        invariant
            alen == a@.len(),
            blen == b@.len(),
            alen == blen,
            i <= alen,
            forall|j: int| 0 <= j < i ==> a@[j] == b@[j],
        decreases alen - i,
    {
        if a.get_char(i) != b.get_char(i) {
            return false;
        }
        i += 1;
    }
    proof {
        assert(a@ =~= b@);
    }
    true
}

/// The character standing for one decimal digit.
pub open spec fn spec_digit_char(d: int) -> char {
    if d == 0 {
        '0'
    } else if d == 1 {
        '1'
    } else if d == 2 {
        '2'
    } else if d == 3 {
        '3'
    } else if d == 4 {
        '4'
    } else if d == 5 {
        '5'
    } else if d == 6 {
        '6'
    } else if d == 7 {
        '7'
    } else if d == 8 {
        '8'
    } else {
        '9'
    }
}

/// The usual decimal rendering of a non-negative integer, most significant
/// digit first, with no leading zeros (except for zero itself).
pub open spec fn spec_decimal(n: int) -> Seq<char>
    decreases n,
{
    if n < 10 {
        seq![spec_digit_char(n)]
    } else {
        spec_decimal(n / 10).push(spec_digit_char(n % 10))
    }
}

fn digit_str(d: u64) -> (r: &'static str)
    requires
        d < 10,
    ensures
        r@ == seq![spec_digit_char(d as int)],
{
    proof {
        reveal_strlit("0");
        reveal_strlit("1");
        reveal_strlit("2");
        reveal_strlit("3");
        reveal_strlit("4");
        reveal_strlit("5");
        reveal_strlit("6");
        reveal_strlit("7");
        reveal_strlit("8");
        reveal_strlit("9");
    }
    let r: &'static str = match d {
        0 => "0",
        1 => "1",
        2 => "2",
        3 => "3",
        4 => "4",
        5 => "5",
        6 => "6",
        7 => "7",
        8 => "8",
        _ => "9",
    };
    proof {
        assert(r@ =~= seq![spec_digit_char(d as int)]);
    }
    r
}

/// The code point of a character with ASCII upper case folded to lower.
pub open spec fn lower_code(c: char) -> int {
    if 65 <= c as int && c as int <= 90 {
        c as int + 32
    } else {
        c as int
    }
}

/// Lexicographic "less or equal" from position `i` on, comparing code
/// points with ASCII case folded.
pub open spec fn ci_le_from(a: Seq<char>, b: Seq<char>, i: int) -> bool
    decreases a.len() - i,
{
    if i >= a.len() {
        true
    } else if i >= b.len() {
        false
    } else if lower_code(a[i]) < lower_code(b[i]) {
        true
    } else if lower_code(a[i]) > lower_code(b[i]) {
        false
    } else {
        ci_le_from(a, b, i + 1)
    }
}

/// Case-insensitive lexicographic "less or equal" on whole strings.
pub open spec fn ci_le(a: Seq<char>, b: Seq<char>) -> bool {
    ci_le_from(a, b, 0)
}

/// Any two strings compare one way or the other: the case-insensitive
/// order is total.
pub proof fn lemma_ci_le_total(a: Seq<char>, b: Seq<char>)
    ensures
        ci_le(a, b) || ci_le(b, a),
{
    lemma_ci_le_from_total(a, b, 0);
}

proof fn lemma_ci_le_from_total(a: Seq<char>, b: Seq<char>, i: int)
    requires
        0 <= i,
    ensures
        ci_le_from(a, b, i) || ci_le_from(b, a, i),
    decreases a.len() + b.len() - 2 * i,
{
    if i >= a.len() || i >= b.len() {
    } else if lower_code(a[i]) == lower_code(b[i]) {
        lemma_ci_le_from_total(a, b, i + 1);
    }
}

/// The case-insensitive order is reflexive.
pub proof fn lemma_ci_le_refl(a: Seq<char>)
    ensures
        ci_le(a, a),
{
    lemma_ci_le_from_refl(a, 0);
}

proof fn lemma_ci_le_from_refl(a: Seq<char>, i: int)
    requires
        0 <= i,
    ensures
        ci_le_from(a, a, i),
    decreases a.len() - i,
{
    if i < a.len() {
        lemma_ci_le_from_refl(a, i + 1);
    }
}

/// The case-insensitive order is transitive.
pub proof fn lemma_ci_le_trans(a: Seq<char>, b: Seq<char>, c: Seq<char>)
    requires
        ci_le(a, b),
        ci_le(b, c),
    ensures
        ci_le(a, c),
{
    lemma_ci_le_from_trans(a, b, c, 0);
}

proof fn lemma_ci_le_from_trans(a: Seq<char>, b: Seq<char>, c: Seq<char>, i: int)
    requires
        0 <= i,
        ci_le_from(a, b, i),
        ci_le_from(b, c, i),
    ensures
        ci_le_from(a, c, i),
    decreases a.len() - i,
{
    if i < a.len() && lower_code(a[i]) == lower_code(b[i]) && lower_code(b[i]) == lower_code(
        c[i],
    ) {
        lemma_ci_le_from_trans(a, b, c, i + 1);
    }
}

fn char_lower_code(c: char) -> (r: u32)
    ensures
        r as int == lower_code(c),
{
    let u = c as u32;
    if 65 <= u && u <= 90 {
        u + 32
    } else {
        u
    }
}

fn str_ci_le_from(a: &str, b: &str, i: usize) -> (r: bool)
    requires
        i <= a@.len(),
        i <= b@.len(),
    ensures
        r == ci_le_from(a@, b@, i as int),
    decreases a@.len() - i,
{
    let alen = a.unicode_len();
    let blen = b.unicode_len();
    if i >= alen {
        true
    } else if i >= blen {
        false
    } else {
        let ca = char_lower_code(a.get_char(i));
        let cb = char_lower_code(b.get_char(i));
        if ca < cb {
            true
        } else if ca > cb {
            false
        } else {
            str_ci_le_from(a, b, i + 1)
        }
    }
}

/// Decides the case-insensitive lexicographic order on two strings.
pub fn str_ci_le(a: &str, b: &str) -> (r: bool)
    ensures
        r == ci_le(a@, b@),
{
    str_ci_le_from(a, b, 0)
}

/// Renders an unsigned integer in decimal.
pub fn u64_to_string(n: u64) -> (r: String)
    ensures
        r@ == spec_decimal(n as int),
    decreases n,
{
    if n < 10 {
        String::from_str(digit_str(n))
    } else {
        let mut s = u64_to_string(n / 10);
        s.append(digit_str(n % 10));
        proof {
            assert(s@ =~= spec_decimal(n as int));
        }
        s
    }
}

/// A user's discriminator as shown in credits: decimal, zero-padded to
/// four digits.
pub open spec fn spec_discriminator(n: int) -> Seq<char> {
    if n < 10 {
        "000"@ + spec_decimal(n)
    } else if n < 100 {
        "00"@ + spec_decimal(n)
    } else if n < 1000 {
        "0"@ + spec_decimal(n)
    } else {
        spec_decimal(n)
    }
}

/// Renders a discriminator zero-padded to four digits.
pub fn discriminator_string(d: u16) -> (r: String)
    ensures
        r@ == spec_discriminator(d as int),
{
    let digits = u64_to_string(d as u64);
    let pad: &'static str = if d < 10 {
        "000"
    } else if d < 100 {
        "00"
    } else if d < 1000 {
        "0"
    } else {
        ""
    };
    let r = String::from_str(pad).concat(digits.as_str());
    proof {
        reveal_strlit("");
        assert(""@ + spec_decimal(d as int) =~= spec_decimal(d as int));
    }
    r
}

} // verus!
