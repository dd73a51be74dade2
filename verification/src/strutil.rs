//! Small verified text helpers: equality, decimal numbers, sign flipping,
//! and splitting on single spaces.
use vstd::prelude::*;

verus! {

/// Character-wise string equality.
pub fn str_eq(a: &str, b: &str) -> (r: bool)
    ensures
        r == (a@ == b@),
{
    let la = a.unicode_len();
    let lb = b.unicode_len();
    if la != lb {
        assert(a@ != b@);
        return false;
    }
    let mut i: usize = 0;
    while i < la
        invariant
            la == a@.len(),
            la == b@.len(),
            i <= la,
            forall|j: int| 0 <= j < i ==> a@[j] == b@[j],
        decreases la - i,
    {
        if a.get_char(i) != b.get_char(i) {
            return false;
        }
        i += 1;
    }
    assert(a@ =~= b@);
    true
}

pub open spec fn is_digit(c: char) -> bool {
    '0' <= c && c <= '9'
}

pub open spec fn all_digits(s: Seq<char>) -> bool {
    forall|i: int| 0 <= i < s.len() ==> is_digit(#[trigger] s[i])
}

/// The decimal digit character for a value below ten.
pub open spec fn digit_char(d: int) -> char {
    if d == 0 { '0' }
    else if d == 1 { '1' }
    else if d == 2 { '2' }
    else if d == 3 { '3' }
    else if d == 4 { '4' }
    else if d == 5 { '5' }
    else if d == 6 { '6' }
    else if d == 7 { '7' }
    else if d == 8 { '8' }
    else { '9' }
}

/// The decimal rendering of a nonnegative number.
pub open spec fn dec_str(n: int) -> Seq<char>
    decreases n,
{
    if n < 10 {
        seq![digit_char(n)]
    } else {
        dec_str(n / 10).push(digit_char(n % 10))
    }
}

/// The value of a digit string, most significant first.
pub open spec fn dec_val(s: Seq<char>) -> int
    decreases s.len(),
{
    if s.len() == 0 {
        0
    } else {
        dec_val(s.drop_last()) * 10 + (s.last() as int - '0' as int)
    }
}

pub proof fn lemma_dec_val_nonneg(s: Seq<char>)
    requires
        all_digits(s),
    ensures
        dec_val(s) >= 0,
    decreases s.len(),
{
    if s.len() > 0 {
        assert(all_digits(s.drop_last())) by {
            assert(forall|i: int| 0 <= i < s.len() - 1 ==> s.drop_last()[i] == s[i]);
        }
        lemma_dec_val_nonneg(s.drop_last());
    }
}

/// Extending a digit string does not decrease its value.
pub proof fn lemma_dec_val_prefix(s: Seq<char>, i: int)
    requires
        all_digits(s),
        0 <= i <= s.len(),
    ensures
        dec_val(s) >= dec_val(s.subrange(0, i)),
    decreases s.len() - i,
{
    if i < s.len() {
        let p = s.subrange(0, i);
        let q = s.subrange(0, i + 1);
        assert(q.drop_last() =~= p);
        assert(all_digits(p)) by {
            assert(forall|j: int| 0 <= j < p.len() ==> p[j] == s[j]);
        }
        lemma_dec_val_nonneg(p);
        assert(dec_val(q) == dec_val(p) * 10 + (s[i] as int - '0' as int));
        assert(dec_val(p) * 10 >= dec_val(p));
        lemma_dec_val_prefix(s, i + 1);
    } else {
        assert(s.subrange(0, i) =~= s);
    }
}

fn digit_str(d: usize) -> (r: &'static str)
    requires
        d < 10,
    ensures
        r@ =~= seq![digit_char(d as int)],
{
    proof {
        reveal_strlit("0");
        reveal_strlit("1");
        reveal_strlit("2");
        reveal_strlit("3");
        reveal_strlit("4");
        reveal_strlit("5");
        reveal_strlit("6");
        reveal_strlit("7");
        reveal_strlit("8");
        reveal_strlit("9");
    }
    match d {
        0 => "0",
        1 => "1",
        2 => "2",
        3 => "3",
        4 => "4",
        5 => "5",
        6 => "6",
        7 => "7",
        8 => "8",
        _ => "9",
    }
}

/// Render a number in decimal.
pub fn usize_to_string(n: usize) -> (r: String)
    ensures
        r@ == dec_str(n as int),
    decreases n,
{
    if n < 10 {
        String::from_str(digit_str(n))
    } else {
        let mut s = usize_to_string(n / 10);
        s.append(digit_str(n % 10));
        s
    }
}

/// Parse a decimal number; `None` on empty or non-digit text and on
/// overflow.
pub fn parse_usize(s: &str) -> (r: Option<usize>)
    ensures
        r matches Some(v) ==> s@.len() > 0 && all_digits(s@) && dec_val(s@) == v,
        r is None ==> s@.len() == 0 || !all_digits(s@) || dec_val(s@) > usize::MAX,
{
    let n = s.unicode_len();
    if n == 0 {
        return None;
    }
    let mut acc: usize = 0;
    let mut i: usize = 0;
    while i < n
        invariant
            n == s@.len(),
            0 < n,
            i <= n,
            all_digits(s@.subrange(0, i as int)),
            acc == dec_val(s@.subrange(0, i as int)),
        decreases n - i,
    {
        let c = s.get_char(i);
        if c < '0' || c > '9' {
            assert(!is_digit(s@[i as int]));
            return None;
        }
        let d = (c as u32 - '0' as u32) as usize;
        proof {
            lemma_dec_val_nonneg(s@.subrange(0, i as int));
        }
        if acc > (usize::MAX - d) / 10 {
            proof {
                let q = s@.subrange(0, i as int + 1);
                assert(q.drop_last() =~= s@.subrange(0, i as int));
                assert(all_digits(q)) by {
                    assert(forall|j: int| 0 <= j < q.len() ==> q[j] == s@[j]);
                }
                assert(dec_val(q) == acc * 10 + d);
                if all_digits(s@) {
                    lemma_dec_val_prefix(s@, i as int + 1);
                }
            }
            return None;
        }
        acc = acc * 10 + d;
        i += 1;
        proof {
            let q = s@.subrange(0, i as int);
            assert(q.drop_last() =~= s@.subrange(0, i as int - 1));
        }
    }
    assert(s@.subrange(0, n as int) =~= s@);
    Some(acc)
}

/// Flip the textual sign of a number: strip a leading minus, or prepend
/// one.
pub fn flip_sign(s: &str) -> (r: String)
    ensures
        s@.len() > 0 && s@[0] == '-' ==> r@ == s@.subrange(1, s@.len() as int),
        !(s@.len() > 0 && s@[0] == '-') ==> r@ == seq!['-'] + s@,
{
    let n = s.unicode_len();
    if n > 0 && s.get_char(0) == '-' {
        String::from_str(s.substring_char(1, n))
    } else {
        proof {
            reveal_strlit("-");
        }
        let mut r = String::from_str("-");
        r.append(s);
        assert(r@ =~= seq!['-'] + s@);
        r
    }
}

/// No two adjacent spaces, none leading or trailing.
pub open spec fn single_spaced(s: Seq<char>) -> bool {
    &&& forall|i: int| 0 <= i < s.len() - 1 ==> !(#[trigger] s[i] == ' ' && s[i + 1] == ' ')
    &&& s.len() > 0 ==> s[0] != ' ' && s[s.len() - 1] != ' '
}

/// Index of the first space at or after `from`, or the length if none.
pub open spec fn find_space(s: Seq<char>, from: int) -> int
    decreases s.len() - from,
{
    if from < 0 || from >= s.len() {
        s.len() as int
    } else if s[from] == ' ' {
        from
    } else {
        find_space(s, from + 1)
    }
}

pub proof fn lemma_find_space(s: Seq<char>, from: int)
    requires
        0 <= from,
    ensures
        find_space(s, from) <= s.len(),
        from <= find_space(s, from) || find_space(s, from) == s.len(),
        find_space(s, from) < s.len() ==> s[find_space(s, from)] == ' ',
        forall|j: int| from <= j < find_space(s, from) ==> s[j] != ' ',
    decreases s.len() - from,
{
    if from < s.len() && s[from] != ' ' {
        lemma_find_space(s, from + 1);
    }
}

/// The pieces of a string cut at every single space.
pub open spec fn split_sp(s: Seq<char>) -> Seq<Seq<char>>
    decreases s.len(),
{
    let p = find_space(s, 0);
    if p == s.len() {
        seq![s]
    } else if 0 <= p < s.len() {
        seq![s.subrange(0, p)] + split_sp(s.subrange(p + 1, s.len() as int))
    } else {
        seq![s]
    }
}

/// Find the first space at or after `from`.
pub fn find_space_at(s: &str, from: usize) -> (r: usize)
    requires
        from <= s@.len(),
    ensures
        r == find_space(s@, from as int),
{
    let n = s.unicode_len();
    let mut i: usize = from;
    while i < n
        invariant
            n == s@.len(),
            from <= i <= n,
            find_space(s@, from as int) == find_space(s@, i as int),
        decreases n - i,
    {
        if s.get_char(i) == ' ' {
            return i;
        }
        i += 1;
    }
    i
}

/// Split a string at every single space.
pub fn split_spaces(s: &str) -> (r: Vec<String>)
    ensures
        r@.len() == split_sp(s@).len(),
        forall|i: int| 0 <= i < r@.len() ==> #[trigger] r@[i]@ == split_sp(s@)[i],
    decreases s@.len(),
{
    let n = s.unicode_len();
    let p = find_space_at(s, 0);
    proof {
        lemma_find_space(s@, 0);
    }
    if p == n {
        let mut r: Vec<String> = Vec::new();
        r.push(s.to_owned());
        r
    } else {
        let head = String::from_str(s.substring_char(0, p));
        let tail = s.substring_char(p + 1, n);
        let mut r = split_spaces(tail);
        r.insert(0, head);
        assert(forall|i: int|
            1 <= i < r@.len() ==> #[trigger] r@[i]@ == split_sp(s@)[i]);
        r
    }
}

} // verus!
