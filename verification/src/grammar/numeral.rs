use vstd::prelude::*;

verus! {

/// A decimal digit.
pub open spec fn is_digit(c: char) -> bool {
    '0' <= c && c <= '9'
}

/// Whether `c` starts an exponent.
pub open spec fn is_exp_char(c: char) -> bool {
    c == 'e' || c == 'E'
}

/// A mantissa: digits with at most one decimal point, and at least one digit.
pub open spec fn is_mantissa(m: Seq<char>) -> bool {
    &&& forall|i: int| 0 <= i < m.len() ==> is_digit(#[trigger] m[i]) || m[i] == '.'
    &&& forall|i: int, j: int| 0 <= i < m.len() && 0 <= j < m.len() && #[trigger] m[i] == '.' && #[trigger] m[j] == '.' ==> i == j
    &&& exists|i: int| 0 <= i < m.len() && is_digit(#[trigger] m[i])
}

/// An exponent: `e` or `E`, an optional sign, and at least one digit.
pub open spec fn is_exponent(x: Seq<char>) -> bool {
    &&& x.len() >= 2
    &&& is_exp_char(x[0])
    &&& {
        let k: int = if x[1] == '+' || x[1] == '-' { 2 } else { 1 };
        k < x.len() && forall|i: int| k <= i < x.len() ==> is_digit(#[trigger] x[i])
    }
}

/// A decimal numeral: a mantissa and an optional exponent, the exponent
/// starting at the first `e` or `E`.
pub open spec fn is_decimal(s: Seq<char>) -> bool {
    exists|e: int|
        0 <= e <= s.len() && (forall|i: int| 0 <= i < e ==> !is_exp_char(#[trigger] s[i]))
            && (e == s.len() || is_exp_char(s[e])) && is_mantissa(#[trigger] s.subrange(0, e))
            && (e == s.len() || is_exponent(s.subrange(e, s.len() as int)))
}

/// `s` without its underscores.
pub open spec fn without_underscores(s: Seq<char>) -> Seq<char>
    decreases s.len(),
{
    if s.len() == 0 {
        Seq::<char>::empty()
    } else {
        let r = without_underscores(s.drop_last());
        if s.last() == '_' { r } else { r.push(s.last()) }
    }
}

/// The type suffixes a numeric literal may carry.
pub open spec fn type_suffixes() -> Seq<Seq<char>> {
    seq![
        seq!['f', '3', '2'], seq!['f', '6', '4'],
        seq!['i', '8'], seq!['i', '1', '6'], seq!['i', '3', '2'], seq!['i', '6', '4'], seq!['i', '1', '2', '8'],
        seq!['i', 's', 'i', 'z', 'e'],
        seq!['u', '8'], seq!['u', '1', '6'], seq!['u', '3', '2'], seq!['u', '6', '4'], seq!['u', '1', '2', '8'],
        seq!['u', 's', 'i', 'z', 'e'],
    ]
}

/// Whether `t` ends with `sfx`.
pub open spec fn ends_with(t: Seq<char>, sfx: Seq<char>) -> bool {
    sfx.len() <= t.len() && t.subrange(t.len() - sfx.len(), t.len() as int) == sfx
}

/// `t` without the first of the type suffixes, from the `k`-th on, that it
/// ends with, if any.
pub open spec fn strip_suffix_from(t: Seq<char>, k: int) -> Option<Seq<char>>
    decreases type_suffixes().len() - k,
{
    if k < 0 || k >= type_suffixes().len() {
        None
    } else if ends_with(t, type_suffixes()[k]) {
        Some(t.subrange(0, t.len() - type_suffixes()[k].len()))
    } else {
        strip_suffix_from(t, k + 1)
    }
}

/// An ASCII letter.
pub open spec fn is_letter(c: char) -> bool {
    ('a' <= c && c <= 'z') || ('A' <= c && c <= 'Z')
}

/// Where the trailing run of letters of `t` starts.
pub open spec fn letters_start(t: Seq<char>) -> int
    decreases t.len(),
{
    if t.len() > 0 && is_letter(t.last()) {
        letters_start(t.drop_last())
    } else {
        t.len() as int
    }
}

/// The numeral a numeric literal stands for: its text without underscores;
/// where that is no decimal numeral, the text without its type suffix
/// (`f64`, `u8`, ...); where that is none either, the text without its
/// trailing run of letters; `None` when none of these is a decimal numeral.
#[verifier::opaque]
pub open spec fn numeral_of(lit: Seq<char>) -> Option<Seq<char>> {
    let t = without_underscores(lit);
    let v = t.subrange(0, letters_start(t));
    if is_decimal(t) {
        Some(t)
    } else if strip_suffix_from(t, 0) is Some && is_decimal(strip_suffix_from(t, 0)->0) {
        strip_suffix_from(t, 0)
    } else if is_decimal(v) {
        Some(v)
    } else {
        None
    }
}

/// The literal's characters without underscores.
pub fn remove_underscores(s: &Vec<char>) -> (r: Vec<char>)
    ensures
        r@ == without_underscores(s@),
{
    let mut r: Vec<char> = Vec::new();
    let mut i: usize = 0;
    assert(s@.take(0) =~= Seq::<char>::empty());
    while i < s.len()
        invariant
            i <= s.len(),
            r@ == without_underscores(s@.take(i as int)),
        decreases s.len() - i,
    {
        assert(s@.take((i + 1) as int).drop_last() =~= s@.take(i as int));
        if s[i] != '_' {
            r.push(s[i]);
        }
        i = i + 1;
    }
    assert(s@.take(s.len() as int) =~= s@);
    r
}

/// Whether a mantissa candidate is a mantissa.
fn check_mantissa(s: &Vec<char>, e: usize) -> (b: bool)
    requires
        e <= s.len(),
    ensures
        b == is_mantissa(s@.subrange(0, e as int)),
{
    let ghost m = s@.subrange(0, e as int);
    let mut i: usize = 0;
    let mut dot: Option<usize> = None;
    let mut digit: Option<usize> = None;
    while i < e
        invariant
            i <= e <= s.len(),
            m == s@.subrange(0, e as int),
            forall|k: int| 0 <= k < i ==> is_digit(#[trigger] m[k]) || m[k] == '.',
            dot matches Some(d) ==> d < i && m[d as int] == '.',
            dot is None ==> forall|k: int| 0 <= k < i ==> #[trigger] m[k] != '.',
            dot matches Some(d) ==> forall|k: int| 0 <= k < i && #[trigger] m[k] == '.' ==> k == d,
            digit matches Some(d) ==> d < i && is_digit(m[d as int]),
            digit is None ==> forall|k: int| 0 <= k < i ==> !is_digit(#[trigger] m[k]),
        decreases e - i,
    {
        let c = s[i];
        if '0' <= c && c <= '9' {
            digit = Some(i);
        } else if c == '.' {
            if dot.is_some() {
                let d = dot.unwrap();
                assert(m[d as int] == '.' && m[i as int] == '.');
                return false;
            }
            dot = Some(i);
        } else {
            assert(!(is_digit(m[i as int]) || m[i as int] == '.'));
            return false;
        }
        i = i + 1;
    }
    if digit.is_none() {
        assert(forall|k: int| 0 <= k < m.len() ==> !is_digit(#[trigger] m[k]));
        return false;
    }
    let d = digit.unwrap();
    assert(is_digit(m[d as int]));
    true
}

/// Whether the characters from `e` on form an exponent.
fn check_exponent(s: &Vec<char>, e: usize) -> (b: bool)
    requires
        e < s.len(),
    ensures
        b == is_exponent(s@.subrange(e as int, s.len() as int)),
{
    let ghost x = s@.subrange(e as int, s.len() as int);
    let n = s.len() - e;
    if n < 2 {
        return false;
    }
    if !(s[e] == 'e' || s[e] == 'E') {
        return false;
    }
    let k: usize = if s[e + 1] == '+' || s[e + 1] == '-' { 2 } else { 1 };
    if k >= n {
        return false;
    }
    assert(x[0] == s@[e as int] && x[1] == s@[(e + 1) as int]);
    let mut i = k;
    while i < n
        invariant
            k <= i <= n,
            2 <= n == s.len() - e,
            x == s@.subrange(e as int, s.len() as int),
            x.len() == n,
            is_exp_char(x[0]),
            k as int == (if x[1] == '+' || x[1] == '-' { 2int } else { 1int }),
            k < n,
            forall|j: int| k <= j < i ==> is_digit(#[trigger] x[j]),
        decreases n - i,
    {
        let c = s[e + i];
        assert(x[i as int] == s@[(e + i) as int]);
        if !('0' <= c && c <= '9') {
            assert(!is_digit(x[i as int]));
            return false;
        }
        i = i + 1;
    }
    true
}

/// Whether the characters form a decimal numeral.
pub fn check_decimal(s: &Vec<char>) -> (b: bool)
    ensures
        b == is_decimal(s@),
{
    let mut e: usize = 0;
    while e < s.len() && !(s[e] == 'e' || s[e] == 'E')
        invariant
            e <= s.len(),
            forall|i: int| 0 <= i < e ==> !is_exp_char(#[trigger] s@[i]),
        decreases s.len() - e,
    {
        e = e + 1;
    }
    let m = check_mantissa(s, e);
    let x = if e < s.len() { check_exponent(s, e) } else { true };
    let b = m && x;
    proof {
        if b {
            assert(is_mantissa(s@.subrange(0, e as int)));
        } else {
            assert forall|e2: int|
                0 <= e2 <= s@.len() && (forall|i: int| 0 <= i < e2 ==> !is_exp_char(#[trigger] s@[i]))
                    && (e2 == s@.len() || is_exp_char(s@[e2])) implies e2 == e by {
                if e2 < e {
                    assert(!is_exp_char(s@[e2]));
                } else if e2 > e {
                    assert(!is_exp_char(s@[e as int]));
                }
            }
        }
    }
    b
}

/// Whether `t` ends with the characters `sfx`.
fn has_suffix(t: &Vec<char>, sfx: &[char]) -> (b: bool)
    ensures
        b == ends_with(t@, sfx@),
{
    if sfx.len() > t.len() {
        return false;
    }
    let off = t.len() - sfx.len();
    let mut i: usize = 0;
    while i < sfx.len()
        invariant
            i <= sfx.len(),
            off == t.len() - sfx.len(),
            forall|j: int| 0 <= j < i ==> t@[off + j] == sfx@[j],
        decreases sfx.len() - i,
    {
        if t[off + i] != sfx[i] {
            assert(t@.subrange(off as int, t.len() as int)[i as int] != sfx@[i as int]);
            return false;
        }
        i = i + 1;
    }
    assert(t@.subrange(off as int, t.len() as int) =~= sfx@);
    true
}

/// The first `n` characters of `t`.
fn prefix(t: &Vec<char>, n: usize) -> (r: Vec<char>)
    requires
        n <= t.len(),
    ensures
        r@ == t@.subrange(0, n as int),
{
    let mut r: Vec<char> = Vec::new();
    let mut i: usize = 0;
    while i < n
        invariant
            i <= n <= t.len(),
            r@ == t@.subrange(0, i as int),
        decreases n - i,
    {
        r.push(t[i]);
        i = i + 1;
        assert(r@ =~= t@.subrange(0, i as int));
    }
    r
}

/// `t` without the first type suffix it ends with, if any.
fn strip_type_suffix(t: &Vec<char>) -> (r: Option<Vec<char>>)
    ensures
        match r {
            Some(u) => strip_suffix_from(t@, 0) == Some(u@),
            None => strip_suffix_from(t@, 0) is None,
        },
{
    let f32s: [char; 3] = ['f', '3', '2'];
    let f64s: [char; 3] = ['f', '6', '4'];
    let i8s: [char; 2] = ['i', '8'];
    let i16s: [char; 3] = ['i', '1', '6'];
    let i32s: [char; 3] = ['i', '3', '2'];
    let i64s: [char; 3] = ['i', '6', '4'];
    let i128s: [char; 4] = ['i', '1', '2', '8'];
    let isizes: [char; 5] = ['i', 's', 'i', 'z', 'e'];
    let u8s: [char; 2] = ['u', '8'];
    let u16s: [char; 3] = ['u', '1', '6'];
    let u32s: [char; 3] = ['u', '3', '2'];
    let u64s: [char; 3] = ['u', '6', '4'];
    let u128s: [char; 4] = ['u', '1', '2', '8'];
    let usizes: [char; 5] = ['u', 's', 'i', 'z', 'e'];
    let suffixes: [&[char]; 14] = [
        &f32s, &f64s, &i8s, &i16s, &i32s, &i64s, &i128s, &isizes, &u8s, &u16s, &u32s, &u64s, &u128s, &usizes,
    ];
    proof {
        assert(f32s@ == type_suffixes()[0]);
        assert(f64s@ == type_suffixes()[1]);
        assert(i8s@ == type_suffixes()[2]);
        assert(i16s@ == type_suffixes()[3]);
        assert(i32s@ == type_suffixes()[4]);
        assert(i64s@ == type_suffixes()[5]);
        assert(i128s@ == type_suffixes()[6]);
        assert(isizes@ == type_suffixes()[7]);
        assert(u8s@ == type_suffixes()[8]);
        assert(u16s@ == type_suffixes()[9]);
        assert(u32s@ == type_suffixes()[10]);
        assert(u64s@ == type_suffixes()[11]);
        assert(u128s@ == type_suffixes()[12]);
        assert(usizes@ == type_suffixes()[13]);
    }
    let mut k: usize = 0;
    while k < 14
        invariant
            k <= 14,
            forall|j: int| 0 <= j < 14 ==> #[trigger] suffixes@[j]@ == type_suffixes()[j],
            strip_suffix_from(t@, 0) == strip_suffix_from(t@, k as int),
        decreases 14 - k,
    {
        let sfx = suffixes[k];
        if has_suffix(t, sfx) {
            return Some(prefix(t, t.len() - sfx.len()));
        }
        k = k + 1;
    }
    None
}

/// Where the trailing run of letters of `t` starts, as `letters_start` says.
fn find_letters_start(t: &Vec<char>) -> (k: usize)
    ensures
        k == letters_start(t@),
{
    let mut k: usize = t.len();
    assert(t@.subrange(0, k as int) =~= t@);
    while k > 0 && (('a' <= t[k - 1] && t[k - 1] <= 'z') || ('A' <= t[k - 1] && t[k - 1] <= 'Z'))
        invariant
            k <= t.len(),
            letters_start(t@) == letters_start(t@.subrange(0, k as int)),
        decreases k,
    {
        assert(t@.subrange(0, k as int).drop_last() =~= t@.subrange(0, k - 1));
        k = k - 1;
    }
    assert(letters_start(t@.subrange(0, k as int)) == k);
    k
}

/// The numeral a numeric literal stands for, as `numeral_of` says.
pub fn numeral(lit: &Vec<char>) -> (r: Option<Vec<char>>)
    ensures
        match r {
            Some(n) => numeral_of(lit@) == Some(n@),
            None => numeral_of(lit@) is None,
        },
{
    reveal(numeral_of);
    let t = remove_underscores(lit);
    if check_decimal(&t) {
        return Some(t);
    }
    match strip_type_suffix(&t) {
        Some(u) => {
            if check_decimal(&u) {
                return Some(u);
            }
        },
        None => {},
    }
    let k = find_letters_start(&t);
    proof {
        lemma_letters_start_bound(t@);
    }
    let v = prefix(&t, k);
    if check_decimal(&v) {
        Some(v)
    } else {
        None
    }
}

/// The trailing run of letters starts within the text.
proof fn lemma_letters_start_bound(t: Seq<char>)
    ensures
        0 <= letters_start(t) <= t.len(),
    decreases t.len(),
{
    if t.len() > 0 && is_letter(t.last()) {
        lemma_letters_start_bound(t.drop_last());
    }
}

/// A sequence without underscores is its own underscore-free form.
pub proof fn lemma_without_underscores_id(s: Seq<char>)
    requires
        !s.contains('_'),
    ensures
        without_underscores(s) == s,
    decreases s.len(),
{
    if s.len() > 0 {
        assert(!s.drop_last().contains('_')) by {
            if s.drop_last().contains('_') {
                let i = choose|i: int| 0 <= i < s.drop_last().len() && s.drop_last()[i] == '_';
                assert(s[i] == '_');
            }
        }
        lemma_without_underscores_id(s.drop_last());
        assert(s.last() != '_') by {
            assert(s[s.len() - 1] == s.last());
        }
        assert(s.drop_last().push(s.last()) =~= s);
    }
}

/// A decimal numeral holds no underscore.
proof fn lemma_decimal_has_no_underscore(s: Seq<char>)
    requires
        is_decimal(s),
    ensures
        !s.contains('_'),
{
    let e = choose|e: int|
        0 <= e <= s.len() && (forall|i: int| 0 <= i < e ==> !is_exp_char(#[trigger] s[i]))
            && (e == s.len() || is_exp_char(s[e])) && is_mantissa(#[trigger] s.subrange(0, e))
            && (e == s.len() || is_exponent(s.subrange(e, s.len() as int)));
    assert forall|i: int| 0 <= i < s.len() implies s[i] != '_' by {
        if i < e {
            assert(s.subrange(0, e)[i] == s[i]);
        } else {
            let x = s.subrange(e, s.len() as int);
            assert(x[i - e] == s[i]);
            if i - e >= 2 {
                let k: int = if x[1] == '+' || x[1] == '-' { 2 } else { 1 };
                assert(is_digit(x[i - e]));
            }
        }
    }
}

/// The numeral a literal stands for stands for itself: reading a numeral
/// back gives the same numeral.
pub proof fn lemma_numeral_of_numeral(lit: Seq<char>)
    requires
        numeral_of(lit) is Some,
    ensures
        numeral_of(numeral_of(lit)->0) == numeral_of(lit),
{
    reveal(numeral_of);
    let n = numeral_of(lit)->0;
    lemma_decimal_has_no_underscore(n);
    lemma_without_underscores_id(n);
}

/// The numeral a literal stands for is a decimal numeral that starts the
/// literal's text without underscores, and is all of that text whenever that
/// text is a decimal numeral itself: only a type suffix or a trailing run of
/// letters is ever dropped, and nothing else changes.
pub proof fn law_numeral_is_prefix(lit: Seq<char>)
    ensures
        numeral_of(lit) matches Some(n) ==> is_decimal(n) && n.len() <= without_underscores(lit).len()
            && n == without_underscores(lit).subrange(0, n.len() as int),
        is_decimal(without_underscores(lit)) ==> numeral_of(lit) == Some(without_underscores(lit)),
{
    reveal(numeral_of);
    let t = without_underscores(lit);
    lemma_strip_suffix_prefix(t, 0);
    lemma_letters_start_bound(t);
    assert(t.subrange(0, t.len() as int) =~= t);
}

/// Stripping a type suffix leaves a start of the text.
proof fn lemma_strip_suffix_prefix(t: Seq<char>, k: int)
    ensures
        strip_suffix_from(t, k) matches Some(u) ==> u.len() <= t.len() && u == t.subrange(0, u.len() as int),
    decreases type_suffixes().len() - k,
{
    if 0 <= k < type_suffixes().len() && !ends_with(t, type_suffixes()[k]) {
        lemma_strip_suffix_prefix(t, k + 1);
    }
}

} // verus!
