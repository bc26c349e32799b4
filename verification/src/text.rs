use vstd::prelude::*;

verus! {

/// The character for a single decimal digit.
pub open spec fn digit_char(d: int) -> char {
    if d == 0 {
        '0'
    } else if d == 1 {
        '1'
    } else if d == 2 {
        '2'
    } else if d == 3 {
        '3'
    } else if d == 4 {
        '4'
    } else if d == 5 {
        '5'
    } else if d == 6 {
        '6'
    } else if d == 7 {
        '7'
    } else if d == 8 {
        '8'
    } else {
        '9'
    }
}

/// Decimal text of a non-negative integer, most significant digit first,
/// with no leading zeros (a lone zero for 0).
pub open spec fn nat_text(n: nat) -> Seq<char>
    decreases n,
{
    if n < 10 {
        seq![digit_char(n as int)]
    } else {
        nat_text(n / 10).push(digit_char((n % 10) as int))
    }
}

/// Decimal text of an integer: a leading '-' for negative values.
pub open spec fn int_text(n: int) -> Seq<char> {
    if n >= 0 {
        nat_text(n as nat)
    } else {
        seq!['-'] + nat_text((-n) as nat)
    }
}

/// Relies on `Iterator::collect` for `String` (`FromIterator<char>`): the
/// returned string holds exactly the given characters, in order.
#[verifier::external_body]
pub fn chars_to_string(v: &Vec<char>) -> (r: String)
    ensures
        r@ == v@,
{
    v.iter().collect()
}

fn digit_to_char(d: u8) -> (c: char)
    requires
        d < 10,
    ensures
        c == digit_char(d as int),
{
    match d {
        0 => '0',
        1 => '1',
        2 => '2',
        3 => '3',
        4 => '4',
        5 => '5',
        6 => '6',
        7 => '7',
        8 => '8',
        _ => '9',
    }
}

proof fn lemma_reverse_push(s: Seq<char>, x: char)
    ensures
        s.push(x).reverse() =~= seq![x] + s.reverse(),
{
}

/// The decimal text of `n`, as the characters of `nat_text`.
pub fn u128_string(n: u128) -> (r: String)
    ensures
        r@ == nat_text(n as nat),
{
    let mut rev: Vec<char> = Vec::new();
    let mut m: u128 = n;
    rev.push(digit_to_char((m % 10) as u8));
    proof {
        lemma_reverse_push(Seq::<char>::empty(), digit_char((n as nat % 10) as int));
        assert(Seq::<char>::empty().reverse() =~= Seq::<char>::empty());
        if n >= 10 {
            assert(nat_text(n as nat) == nat_text(n as nat / 10).push(
                digit_char((n as nat % 10) as int),
            ));
            assert(nat_text(n as nat) =~= nat_text(n as nat / 10) + rev@.reverse());
        } else {
            assert(nat_text(n as nat) =~= rev@.reverse());
        }
    }
    m = m / 10;
    while m != 0
        invariant
            if m == 0 {
                nat_text(n as nat) =~= rev@.reverse()
            } else {
                nat_text(n as nat) =~= nat_text(m as nat) + rev@.reverse()
            },
        decreases m,
    {
        let ghost old_rev = rev@;
        let ghost old_m = m as nat;
        let d: u8 = (m % 10) as u8;
        rev.push(digit_to_char(d));
        proof {
            lemma_reverse_push(old_rev, digit_char(d as int));
            assert(rev@ == old_rev.push(digit_char(d as int)));
        }
        m = m / 10;
        proof {
            if old_m >= 10 {
                assert(nat_text(old_m) == nat_text(old_m / 10).push(
                    digit_char((old_m % 10) as int),
                ));
                assert(nat_text(old_m) =~= nat_text(old_m / 10) + seq![
                    digit_char((old_m % 10) as int),
                ]);
                assert(nat_text(n as nat) =~= nat_text(m as nat) + rev@.reverse());
            } else {
                assert(nat_text(old_m) =~= seq![digit_char((old_m % 10) as int)]);
                assert(nat_text(n as nat) =~= rev@.reverse());
            }
        }
    }
    let mut out: Vec<char> = Vec::new();
    let mut i: usize = rev.len();
    while i > 0
        invariant
            i <= rev@.len(),
            out@.len() == rev@.len() - i,
            forall|j: int| 0 <= j < out@.len() ==> out@[j] == rev@[rev@.len() - 1 - j],
        decreases i,
    {
        i = i - 1;
        let c = rev[i];
        out.push(c);
    }
    proof {
        assert(out@ =~= rev@.reverse());
    }
    chars_to_string(&out)
}

/// The decimal text of `n`, with a leading '-' when negative.
pub fn i128_string(n: i128) -> (r: String)
    ensures
        r@ == int_text(n as int),
{
    if n >= 0 {
        u128_string(n as u128)
    } else {
        let m: u128 = ((-(n + 1)) as u128) + 1;
        proof {
            assert(m as int == -(n as int));
        }
        let digits = u128_string(m);
        let mut s = String::new();
        s.append("-");
        s.append(digits.as_str());
        proof {
            reveal_strlit("-");
            assert("-"@ =~= seq!['-']);
            assert(s@ =~= seq!['-'] + nat_text((-(n as int)) as nat));
        }
        s
    }
}

/// Character-wise match of `s` against a keyword given in its upper-case and
/// lower-case spellings: every character must equal the corresponding
/// character of one of the two.
pub open spec fn eq_either(s: Seq<char>, up: Seq<char>, lo: Seq<char>) -> bool {
    s.len() == up.len() && (forall|i: int| 0 <= i < s.len() ==> s[i] == up[i] || s[i] == lo[i])
}

pub fn matches_either(s: &str, up: &str, lo: &str) -> (r: bool)
    requires
        up@.len() == lo@.len(),
    ensures
        r == eq_either(s@, up@, lo@),
{
    let n: usize = s.unicode_len();
    if n != up.unicode_len() {
        return false;
    }
    let mut i: usize = 0;
    while i < n
        invariant
            i <= n,
            n == s@.len(),
            n == up@.len(),
            up@.len() == lo@.len(),
            forall|j: int| 0 <= j < i ==> s@[j] == up@[j] || s@[j] == lo@[j],
        decreases n - i,
    {
        let c = s.get_char(i);
        let u = up.get_char(i);
        let l = lo.get_char(i);
        if c != u && c != l {
            return false;
        }
        i = i + 1;
    }
    true
}

} // verus!
