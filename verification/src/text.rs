//! Character-level helpers shared by the rest of the library: whitespace trimming,
//! number formatting, substring search and string building.
use vstd::prelude::*;

verus! {

/// The text of the error in `r`, if `r` is an error.
pub open spec fn err_text<T>(r: Result<T, String>) -> Option<Seq<char>> {
    match r {
        Ok(_) => None,
        Err(e) => Some(e@),
    }
}

/// Appends one character to a string.
///
/// Calls `String::push`; the contract states that the new contents are the old
/// contents followed by `c`, as std documents.
#[verifier::external_body]
pub(crate) fn push_char(s: &mut String, c: char)
    ensures
        final(s)@ == old(s)@.push(c),
{
    s.push(c);
}

/// Collects the characters of `s` into a vector.
pub fn to_chars(s: &str) -> (v: Vec<char>)
    ensures
        v@ == s@,
{
    let n = s.unicode_len();
    let mut v: Vec<char> = Vec::new();
    let mut i: usize = 0;
    while i < n
        invariant
            n == s@.len(),
            i <= n,
            v@ == s@.subrange(0, i as int),
        decreases n - i,
    {
        let c = s.get_char(i);
        v.push(c);
        i = i + 1;
        assert(v@ =~= s@.subrange(0, i as int));
    }
    assert(v@ =~= s@);
    v
}

/// Builds a string from a slice of characters.
pub fn from_chars(v: &[char]) -> (s: String)
    ensures
        s@ == v@,
{
    let mut s = String::new();
    let mut i: usize = 0;
    while i < v.len()
        invariant
            i <= v@.len(),
            s@ == v@.subrange(0, i as int),
        decreases v@.len() - i,
    {
        push_char(&mut s, v[i]);
        i = i + 1;
        assert(s@ =~= v@.subrange(0, i as int));
    }
    assert(s@ =~= v@);
    s
}

/// Copies a string slice into an owned string.
pub fn owned(s: &str) -> (r: String)
    ensures
        r@ == s@,
{
    String::from_str(s)
}

/// Concatenates two string slices.
pub fn concat(a: &str, b: &str) -> (r: String)
    ensures
        r@ == a@ + b@,
{
    let mut r = String::from_str(a);
    r.append(b);
    r
}

/// Compares two string slices character by character.
pub fn str_eq(a: &str, b: &str) -> (r: bool)
    ensures
        r == (a@ == b@),
{
    let n = a.unicode_len();
    let m = b.unicode_len();
    if n != m {
        return false;
    }
    let mut i: usize = 0;
    while i < n
        invariant
            n == a@.len(),
            m == b@.len(),
            n == m,
            i <= n,
            forall|j: int| 0 <= j < i ==> a@[j] == b@[j],
        decreases n - i,
    {
        if a.get_char(i) != b.get_char(i) {
            return false;
        }
        i = i + 1;
    }
    assert(a@ =~= b@);
    true
}

/// The characters that carry the Unicode `White_Space` property, which is what
/// `char::is_whitespace` tests.
pub open spec fn is_ws(c: char) -> bool {
    let u = c as u32;
    ||| 0x09 <= u <= 0x0D
    ||| u == 0x20
    ||| u == 0x85
    ||| u == 0xA0
    ||| u == 0x1680
    ||| 0x2000 <= u <= 0x200A
    ||| u == 0x2028
    ||| u == 0x2029
    ||| u == 0x202F
    ||| u == 0x205F
    ||| u == 0x3000
}

/// Whether `c` is a whitespace character.
pub fn char_is_whitespace(c: char) -> (r: bool)
    ensures
        r == is_ws(c),
{
    let u = c as u32;
    (0x09 <= u && u <= 0x0D) || u == 0x20 || u == 0x85 || u == 0xA0 || u == 0x1680 || (0x2000
        <= u && u <= 0x200A) || u == 0x2028 || u == 0x2029 || u == 0x202F || u == 0x205F || u
        == 0x3000
}

/// `s` without its leading whitespace.
pub open spec fn trim_start(s: Seq<char>) -> Seq<char>
    decreases s.len(),
{
    if s.len() > 0 && is_ws(s[0]) {
        trim_start(s.drop_first())
    } else {
        s
    }
}

/// `s` without its trailing whitespace.
pub open spec fn trim_end(s: Seq<char>) -> Seq<char>
    decreases s.len(),
{
    if s.len() > 0 && is_ws(s.last()) {
        trim_end(s.drop_last())
    } else {
        s
    }
}

/// `s` without leading and trailing whitespace, as `str::trim` gives it.
pub open spec fn trim(s: Seq<char>) -> Seq<char> {
    trim_end(trim_start(s))
}

/// Whether `s` holds nothing but whitespace (or nothing at all).
pub open spec fn is_blank(s: Seq<char>) -> bool {
    trim(s).len() == 0
}

proof fn lemma_trim_start_step(s: Seq<char>, i: int)
    requires
        0 <= i < s.len(),
        is_ws(s[i]),
    ensures
        trim_start(s.subrange(i, s.len() as int)) == trim_start(s.subrange(i + 1, s.len() as int)),
{
    assert(s.subrange(i, s.len() as int).drop_first() =~= s.subrange(i + 1, s.len() as int));
}

proof fn lemma_trim_end_step(s: Seq<char>, j: int)
    requires
        0 < j <= s.len(),
        is_ws(s[j - 1]),
    ensures
        trim_end(s.subrange(0, j)) == trim_end(s.subrange(0, j - 1)),
{
    assert(s.subrange(0, j).drop_last() =~= s.subrange(0, j - 1));
}

/// Removes leading and trailing whitespace from `s`.
pub fn trim_str(s: &str) -> (r: String)
    ensures
        r@ == trim(s@),
{
    let v = to_chars(s);
    let n = v.len();
    let mut i: usize = 0;
    assert(v@.subrange(0, n as int) =~= v@);
    while i < n && char_is_whitespace(v[i])
        invariant
            n == v@.len(),
            i <= n,
            trim_start(v@) == trim_start(v@.subrange(i as int, n as int)),
        decreases n - i,
    {
        proof {
            lemma_trim_start_step(v@, i as int);
        }
        i = i + 1;
    }
    assert(v@.subrange(0, n as int) =~= v@);
    let ghost rest = v@.subrange(i as int, n as int);
    assert(trim_start(rest) == rest);
    assert(rest.subrange(0, (n - i) as int) =~= rest);
    let mut j: usize = n;
    while j > i && char_is_whitespace(v[j - 1])
        invariant
            n == v@.len(),
            i <= j <= n,
            rest == v@.subrange(i as int, n as int),
            trim_end(rest) == trim_end(rest.subrange(0, j - i)),
        decreases j,
    {
        proof {
            lemma_trim_end_step(rest, (j - i) as int);
        }
        j = j - 1;
    }
    assert(rest.subrange(0, (j - i) as int) =~= v@.subrange(i as int, j as int));
    let mut out = String::new();
    let mut k: usize = i;
    while k < j
        invariant
            n == v@.len(),
            i <= k <= j <= n,
            out@ == v@.subrange(i as int, k as int),
        decreases j - k,
    {
        push_char(&mut out, v[k]);
        k = k + 1;
        assert(out@ =~= v@.subrange(i as int, k as int));
    }
    assert(v@ =~= s@);
    out
}

/// Whether `s` is empty or all whitespace.
pub fn str_is_blank(s: &str) -> (r: bool)
    ensures
        r == is_blank(s@),
{
    let t = trim_str(s);
    t.as_str().unicode_len() == 0
}

/// The decimal digit character for `d` (`0 <= d < 10`).
pub open spec fn digit_char(d: int) -> char {
    (d + 48) as char
}

/// The decimal representation of `n`, without leading zeros.
pub open spec fn decimal(n: nat) -> Seq<char>
    decreases n,
{
    if n < 10 {
        seq![digit_char(n as int)]
    } else {
        decimal(n / 10).push(digit_char((n % 10) as int))
    }
}

fn digit(d: u64) -> (c: char)
    requires
        d < 10,
    ensures
        c == digit_char(d as int),
{
    let b: u8 = d as u8;
    assert(b as u32 == d);
    (48u8 + b) as char
}

/// Formats `n` in decimal.
pub fn u64_to_decimal(n: u64) -> (s: String)
    ensures
        s@ == decimal(n as nat),
{
    let mut v: Vec<char> = Vec::new();
    let mut m: u64 = n;
    loop
        invariant_except_break
            decimal(n as nat) == decimal(m as nat) + v@,
        ensures
            v@ == decimal(n as nat),
        decreases m,
    {
        let c = digit(m % 10);
        let ghost prev = v@;
        v.insert(0, c);
        if m < 10 {
            assert(v@ =~= decimal(m as nat) + prev);
            break;
        }
        assert(decimal(m as nat) == decimal((m / 10) as nat).push(c));
        assert(decimal(m as nat) + prev =~= decimal((m / 10) as nat) + v@);
        m = m / 10;
    }
    from_chars(v.as_slice())
}


/// What `str::to_lowercase` gives for `s`: the full Unicode lowercase mapping, which
/// may change the number of characters.
pub uninterp spec fn lowercase(s: Seq<char>) -> Seq<char>;

/// Lowercases `s`.
///
/// Calls `str::to_lowercase`. The Unicode case mapping is named, not restated: the
/// contract says only that the result is a function of the text alone.
#[verifier::external_body]
pub(crate) fn to_lowercase(s: &str) -> (r: String)
    ensures
        r@ == lowercase(s@),
{
    s.to_lowercase()
}

/// Whether `needle` occurs in `hay` as a contiguous run of characters.
pub open spec fn contains_seq(hay: Seq<char>, needle: Seq<char>) -> bool {
    exists|i: int|
        0 <= i && i + needle.len() <= hay.len() && #[trigger] hay.subrange(i, i + needle.len())
            == needle
}

/// Whether `needle` occurs in `hay` at position `i`.
fn occurs_at(hay: &Vec<char>, needle: &Vec<char>, i: usize) -> (r: bool)
    requires
        i + needle@.len() <= hay@.len(),
    ensures
        r == (hay@.subrange(i as int, i + needle@.len()) == needle@),
{
    let hl = hay.len();
    let mut j: usize = 0;
    while j < needle.len()
        invariant
            hl == hay@.len(),
            i + needle@.len() <= hay@.len(),
            j <= needle@.len(),
            forall|k: int| 0 <= k < j ==> hay@[i + k] == needle@[k],
        decreases needle@.len() - j,
    {
        assert(i + j < hay@.len());
        if hay[i + j] != needle[j] {
            assert(hay@.subrange(i as int, i + needle@.len())[j as int] != needle@[j as int]);
            return false;
        }
        j = j + 1;
    }
    assert(hay@.subrange(i as int, i + needle@.len()) =~= needle@);
    true
}

/// Whether `needle` occurs in `hay`, as `str::contains` with a string pattern tells.
pub fn str_contains(hay: &str, needle: &str) -> (r: bool)
    ensures
        r == contains_seq(hay@, needle@),
{
    let h = to_chars(hay);
    let n = to_chars(needle);
    if n.len() > h.len() {
        return false;
    }
    let last = h.len() - n.len();
    let mut i: usize = 0;
    loop
        invariant
            h@ == hay@,
            n@ == needle@,
            last + n@.len() == h@.len(),
            i <= last,
            forall|k: int|
                0 <= k < i ==> #[trigger] hay@.subrange(k, k + needle@.len()) != needle@,
        decreases last - i,
    {
        if occurs_at(&h, &n, i) {
            assert(hay@.subrange(i as int, i + needle@.len()) == needle@);
            return true;
        }
        if i == last {
            return false;
        }
        i = i + 1;
    }
}

/// The position of the first string in `ids` equal to `id`, if any.
pub open spec fn first_id_index(ids: Seq<String>, id: Seq<char>) -> Option<int> {
    if exists|i: int| 0 <= i < ids.len() && #[trigger] ids[i]@ == id {
        Some(
            choose|i: int|
                0 <= i < ids.len() && #[trigger] ids[i]@ == id && forall|j: int|
                    0 <= j < i ==> #[trigger] ids[j]@ != id,
        )
    } else {
        None
    }
}

/// The position of the first string in `ids` equal to `id`, if any.
pub fn index_of_str(ids: &Vec<String>, id: &str) -> (r: Option<usize>)
    ensures
        r matches Some(j) ==> j < ids@.len() && ids@[j as int]@ == id@,
        match first_id_index(ids@, id@) {
            Some(i) => r matches Some(j) && j as int == i,
            None => r is None,
        },
{
    let mut i: usize = 0;
    while i < ids.len()
        invariant
            i <= ids@.len(),
            forall|j: int| 0 <= j < i ==> #[trigger] ids@[j]@ != id@,
        decreases ids@.len() - i,
    {
        if str_eq(ids[i].as_str(), id) {
            let ghost s = ids@;
            assert(exists|a: int| 0 <= a < s.len() && #[trigger] s[a]@ == id@);
            let ghost c = choose|a: int|
                0 <= a < s.len() && #[trigger] s[a]@ == id@ && forall|j: int|
                    0 <= j < a ==> #[trigger] s[j]@ != id@;
            assert(0 <= i < s.len() && s[i as int]@ == id@ && forall|j: int|
                0 <= j < i ==> #[trigger] s[j]@ != id@);
            assert(c == i) by {
                if c < i {
                    assert(s[c]@ != id@);
                } else if c > i {
                    assert(s[i as int]@ != id@);
                }
            }
            return Some(i);
        }
        i = i + 1;
    }
    None
}



/// Whether `s` begins with `p`.
pub open spec fn starts_with(s: Seq<char>, p: Seq<char>) -> bool {
    p.len() <= s.len() && s.subrange(0, p.len() as int) == p
}

/// The rest of `s` after the prefix `p`, when `s` begins with it, as
/// `str::strip_prefix` gives it.
pub fn strip_prefix(s: &str, p: &str) -> (r: Option<String>)
    ensures
        starts_with(s@, p@) ==> (r matches Some(t) && t@ == s@.subrange(p@.len() as int, s@.len() as int)),
        !starts_with(s@, p@) ==> r is None,
{
    let sv = to_chars(s);
    let pv = to_chars(p);
    if pv.len() > sv.len() {
        return None;
    }
    let mut i: usize = 0;
    while i < pv.len()
        invariant
            sv@ == s@,
            pv@ == p@,
            pv@.len() <= sv@.len(),
            i <= pv@.len(),
            forall|j: int| 0 <= j < i ==> sv@[j] == pv@[j],
        decreases pv@.len() - i,
    {
        if sv[i] != pv[i] {
            assert(s@.subrange(0, p@.len() as int)[i as int] != p@[i as int]);
            return None;
        }
        i = i + 1;
    }
    assert(s@.subrange(0, p@.len() as int) =~= p@);
    let mut rest = String::new();
    let mut k: usize = pv.len();
    while k < sv.len()
        invariant
            sv@ == s@,
            pv@ == p@,
            pv@.len() <= k <= sv@.len(),
            rest@ == s@.subrange(p@.len() as int, k as int),
        decreases sv@.len() - k,
    {
        push_char(&mut rest, sv[k]);
        k = k + 1;
        assert(rest@ =~= s@.subrange(p@.len() as int, k as int));
    }
    Some(rest)
}


/// Whether `s` ends with `p`.
pub open spec fn ends_with(s: Seq<char>, p: Seq<char>) -> bool {
    p.len() <= s.len() && s.subrange(s.len() - p.len(), s.len() as int) == p
}

/// Whether `s` begins with `p`, as `str::starts_with` tells.
pub fn str_starts_with(s: &str, p: &str) -> (r: bool)
    ensures
        r == starts_with(s@, p@),
{
    strip_prefix(s, p).is_some()
}

/// Whether `s` ends with `p`, as `str::ends_with` tells.
pub fn str_ends_with(s: &str, p: &str) -> (r: bool)
    ensures
        r == ends_with(s@, p@),
{
    let n = s.unicode_len();
    let m = p.unicode_len();
    if m > n {
        return false;
    }
    let mut i: usize = 0;
    while i < m
        invariant
            n == s@.len(),
            m == p@.len(),
            m <= n,
            i <= m,
            forall|j: int| 0 <= j < i ==> s@[n - m + j] == p@[j],
        decreases m - i,
    {
        if s.get_char(n - m + i) != p.get_char(i) {
            assert(s@.subrange(n - m, n as int)[i as int] != p@[i as int]);
            return false;
        }
        i = i + 1;
    }
    assert(s@.subrange(n - m, n as int) =~= p@);
    true
}

/// `s` padded on the left with `0` to at least `width` characters.
pub open spec fn zero_padded(s: Seq<char>, width: nat) -> Seq<char> {
    if s.len() >= width {
        s
    } else {
        Seq::new((width - s.len()) as nat, |i: int| '0') + s
    }
}

/// `n` in decimal, padded with zeros to at least `width` digits, as `format!("{:0w$}")`
/// writes it.
pub fn zero_pad(n: u64, width: usize) -> (r: String)
    ensures
        r@ == zero_padded(decimal(n as nat), width as nat),
{
    let d = u64_to_decimal(n);
    let len = d.as_str().unicode_len();
    if len >= width {
        return d;
    }
    let mut t = String::new();
    let mut i: usize = 0;
    while i < width - len
        invariant
            len == d@.len(),
            len < width,
            i <= width - len,
            t@ == Seq::new(i as nat, |k: int| '0'),
        decreases width - len - i,
    {
        push_char(&mut t, '0');
        i = i + 1;
        assert(t@ =~= Seq::new(i as nat, |k: int| '0'));
    }
    t.append(d.as_str());
    t
}

} // verus!
