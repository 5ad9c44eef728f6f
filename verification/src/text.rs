//! Character-level text helpers, stated over `Seq<char>`.
use vstd::prelude::*;
use vstd::std_specs::iter::IteratorSpec;

verus! {

/// Unicode `White_Space`, the set that `char::is_whitespace` accepts.
pub open spec fn is_ws(c: char) -> bool {
    ||| ('\u{9}' <= c && c <= '\u{d}')
    ||| c == ' '
    ||| c == '\u{85}'
    ||| c == '\u{a0}'
    ||| c == '\u{1680}'
    ||| ('\u{2000}' <= c && c <= '\u{200a}')
    ||| c == '\u{2028}'
    ||| c == '\u{2029}'
    ||| c == '\u{202f}'
    ||| c == '\u{205f}'
    ||| c == '\u{3000}'
}

/// Whether `c` is white space.
pub fn is_whitespace(c: char) -> (r: bool)
    ensures
        r == is_ws(c),
{
    ('\u{9}' <= c && c <= '\u{d}') || c == ' ' || c == '\u{85}' || c == '\u{a0}' || c
        == '\u{1680}' || ('\u{2000}' <= c && c <= '\u{200a}') || c == '\u{2028}' || c
        == '\u{2029}' || c == '\u{202f}' || c == '\u{205f}' || c == '\u{3000}'
}

/// The characters of `s`, in order.
pub fn to_chars(s: &str) -> (v: Vec<char>)
    ensures
        v@ == s@,
{
    broadcast use vstd::string::group_string_axioms;

    let mut v: Vec<char> = Vec::new();
    let mut it = s.chars();
    let ghost all = s@;
    loop
        invariant
            it.remaining() == all.skip(v@.len() as int),
            v@ == all.take(v@.len() as int),
            v@.len() <= all.len(),
            all == s@,
        decreases all.len() - v@.len(),
    {
        match it.next() {
            Some(c) => {
                v.push(c);
            },
            None => {
                return v;
            },
        }
    }
}

/// Appends one character to a `String` (`String::push`).
#[verifier::external_body]
fn push_char(s: &mut String, c: char)
    ensures
        final(s)@ == old(s)@.push(c),
{
    s.push(c);
}

/// The `String` made of the characters of `v`.
pub fn from_chars(v: &[char]) -> (s: String)
    ensures
        s@ == v@,
{
    let mut s = String::new();
    let mut i: usize = 0;
    while i < v.len()
        invariant
            i <= v@.len(),
            s@ == v@.take(i as int),
        decreases v@.len() - i,
    {
        push_char(&mut s, v[i]);
        assert(v@.take(i + 1) == v@.take(i as int).push(v@[i as int]));
        i += 1;
    }
    assert(v@.take(v@.len() as int) == v@);
    s
}


/// Words of `s` as `str::split_whitespace` yields them, scanning from the
/// front: `words` are the words already closed, `cur` the word being read.
pub open spec fn split_ws_from(s: Seq<char>, words: Seq<Seq<char>>, cur: Seq<char>) -> Seq<Seq<char>>
    decreases s.len(),
{
    if s.len() == 0 {
        if cur.len() > 0 {
            words.push(cur)
        } else {
            words
        }
    } else if is_ws(s[0]) {
        split_ws_from(s.drop_first(), if cur.len() > 0 { words.push(cur) } else { words }, seq![])
    } else {
        split_ws_from(s.drop_first(), words, cur.push(s[0]))
    }
}

/// The white-space separated words of `s`, without empty words.
pub open spec fn split_ws(s: Seq<char>) -> Seq<Seq<char>> {
    split_ws_from(s, seq![], seq![])
}

/// `str::split_whitespace`, collected.
pub fn split_whitespace(s: &[char]) -> (words: Vec<Vec<char>>)
    ensures
        words@.map_values(|w: Vec<char>| w@) == split_ws(s@),
{
    let mut words: Vec<Vec<char>> = Vec::new();
    let mut cur: Vec<char> = Vec::new();
    let mut i: usize = 0;
    assert(s@.skip(0) == s@);
    assert(words@.map_values(|w: Vec<char>| w@) == Seq::<Seq<char>>::empty());
    assert(cur@ == Seq::<char>::empty());
    while i < s.len()
        invariant
            i <= s@.len(),
            split_ws(s@) == split_ws_from(s@.skip(i as int), words@.map_values(|w: Vec<char>| w@), cur@),
        decreases s@.len() - i,
    {
        let ghost rest = s@.skip(i as int);
        assert(rest.drop_first() == s@.skip(i + 1));
        assert(rest[0] == s@[i as int]);
        let c = s[i];
        if is_whitespace(c) {
            if cur.len() > 0 {
                let ghost before = words@.map_values(|w: Vec<char>| w@);
                words.push(cur);
                assert(words@.map_values(|w: Vec<char>| w@) == before.push(cur@));
            }
            cur = Vec::new();
        } else {
            cur.push(c);
        }
        i += 1;
    }
    assert(s@.skip(i as int).len() == 0);
    if cur.len() > 0 {
        let ghost before = words@.map_values(|w: Vec<char>| w@);
        words.push(cur);
        assert(words@.map_values(|w: Vec<char>| w@) == before.push(cur@));
    }
    words
}


/// Character sets that the workflow trims from the ends of its input.
#[derive(Clone, Copy, PartialEq, Eq, Debug)]
pub enum CharSet {
    /// Unicode white space, as `str::trim` uses it.
    Whitespace,
    /// The double quote only.
    Quote,
    /// Tab, space, backslash and newline: around a bookmark's tags and note.
    NoteSeparators,
    /// Braces and newline: around the browser script's output.
    Braces,
}

/// Whether `c` belongs to `set`.
pub open spec fn in_set(set: CharSet, c: char) -> bool {
    match set {
        CharSet::Whitespace => is_ws(c),
        CharSet::Quote => c == '"',
        CharSet::NoteSeparators => c == '\t' || c == ' ' || c == '\\' || c == '\n',
        CharSet::Braces => c == '{' || c == '}' || c == '\n',
    }
}

/// Whether `c` belongs to `set`.
pub fn set_contains(set: CharSet, c: char) -> (r: bool)
    ensures
        r == in_set(set, c),
{
    match set {
        CharSet::Whitespace => is_whitespace(c),
        CharSet::Quote => c == '"',
        CharSet::NoteSeparators => c == '\t' || c == ' ' || c == '\\' || c == '\n',
        CharSet::Braces => c == '{' || c == '}' || c == '\n',
    }
}

/// `s` without its leading characters from `set`.
pub open spec fn trim_start_set(s: Seq<char>, set: CharSet) -> Seq<char>
    decreases s.len(),
{
    if s.len() > 0 && in_set(set, s[0]) {
        trim_start_set(s.drop_first(), set)
    } else {
        s
    }
}

/// `s` without its trailing characters from `set`.
pub open spec fn trim_end_set(s: Seq<char>, set: CharSet) -> Seq<char>
    decreases s.len(),
{
    if s.len() > 0 && in_set(set, s.last()) {
        trim_end_set(s.drop_last(), set)
    } else {
        s
    }
}

/// `s` without leading and trailing characters from `set` (`str::trim_matches`).
pub open spec fn trim_set(s: Seq<char>, set: CharSet) -> Seq<char> {
    trim_end_set(trim_start_set(s, set), set)
}

/// `s` without white space at either end (`str::trim`).
pub open spec fn trim_ws(s: Seq<char>) -> Seq<char> {
    trim_set(s, CharSet::Whitespace)
}

/// The characters `s[from..to]`.
pub fn sub_chars(s: &[char], from: usize, to: usize) -> (v: Vec<char>)
    requires
        from <= to <= s@.len(),
    ensures
        v@ == s@.subrange(from as int, to as int),
{
    let mut v: Vec<char> = Vec::new();
    let mut i = from;
    while i < to
        invariant
            from <= i <= to <= s@.len(),
            v@ == s@.subrange(from as int, i as int),
        decreases to - i,
    {
        v.push(s[i]);
        assert(s@.subrange(from as int, i + 1) == s@.subrange(from as int, i as int).push(s@[i as int]));
        i += 1;
    }
    v
}

/// `s` without leading and trailing characters from `set`.
pub fn trim_matches(s: &[char], set: CharSet) -> (v: Vec<char>)
    ensures
        v@ == trim_set(s@, set),
{
    let mut i: usize = 0;
    assert(s@.skip(0) == s@);
    while i < s.len() && set_contains(set, s[i])
        invariant
            i <= s@.len(),
            trim_start_set(s@, set) == trim_start_set(s@.skip(i as int), set),
        decreases s@.len() - i,
    {
        assert(s@.skip(i as int).drop_first() == s@.skip(i + 1));
        i += 1;
    }
    let ghost start = s@.skip(i as int);
    assert(trim_start_set(start, set) == start);
    let mut j: usize = s.len();
    assert(start == s@.subrange(i as int, j as int));
    while j > i && set_contains(set, s[j - 1])
        invariant
            i <= j <= s@.len(),
            trim_end_set(start, set) == trim_end_set(s@.subrange(i as int, j as int), set),
        decreases j,
    {
        assert(s@.subrange(i as int, j as int).drop_last() == s@.subrange(i as int, j - 1));
        j -= 1;
    }
    sub_chars(s, i, j)
}

/// First position at or after `i` where `c` occurs in `s`.
pub open spec fn find_char_from(s: Seq<char>, c: char, i: int) -> Option<int>
    decreases s.len() - i,
{
    if i < 0 || i >= s.len() {
        None
    } else if s[i] == c {
        Some(i)
    } else {
        find_char_from(s, c, i + 1)
    }
}

/// First position of `c` in `s` (`str::find`).
pub open spec fn find_char(s: Seq<char>, c: char) -> Option<int> {
    find_char_from(s, c, 0)
}

/// First position of `c` in `s`.
pub fn find(s: &[char], c: char) -> (r: Option<usize>)
    ensures
        r matches Some(k) ==> find_char(s@, c) == Some(k as int) && k < s@.len() && s@[k as int] == c,
        r is None ==> find_char(s@, c) is None,
{
    let mut i: usize = 0;
    while i < s.len()
        invariant
            i <= s@.len(),
            find_char(s@, c) == find_char_from(s@, c, i as int),
        decreases s@.len() - i,
    {
        if s[i] == c {
            return Some(i);
        }
        i += 1;
    }
    None
}

/// Last position before `j` where `c` occurs in `s`.
pub open spec fn rfind_char_before(s: Seq<char>, c: char, j: int) -> Option<int>
    decreases j,
{
    if j <= 0 || j > s.len() {
        None
    } else if s[j - 1] == c {
        Some(j - 1)
    } else {
        rfind_char_before(s, c, j - 1)
    }
}

/// Last position of `c` in `s` (`str::rfind`).
pub open spec fn rfind_char(s: Seq<char>, c: char) -> Option<int> {
    rfind_char_before(s, c, s.len() as int)
}

/// Last position of `c` in `s`.
pub fn rfind(s: &[char], c: char) -> (r: Option<usize>)
    ensures
        r matches Some(k) ==> rfind_char(s@, c) == Some(k as int) && k < s@.len(),
        r is None ==> rfind_char(s@, c) is None,
{
    let mut j: usize = s.len();
    while j > 0
        invariant
            j <= s@.len(),
            rfind_char(s@, c) == rfind_char_before(s@, c, j as int),
        decreases j,
    {
        if s[j - 1] == c {
            return Some(j - 1);
        }
        j -= 1;
    }
    None
}

/// Whether `a` and `b` hold the same characters.
pub fn chars_eq(a: &[char], b: &[char]) -> (r: bool)
    ensures
        r == (a@ == b@),
{
    if a.len() != b.len() {
        return false;
    }
    let mut i: usize = 0;
    while i < a.len()
        invariant
            i <= a@.len() == b@.len(),
            forall|k: int| 0 <= k < i ==> a@[k] == b@[k],
        decreases a@.len() - i,
    {
        if a[i] != b[i] {
            return false;
        }
        i += 1;
    }
    assert(a@ =~= b@);
    true
}

/// `words` joined with `sep` between neighbours (`[T]::join`).
pub open spec fn join(words: Seq<Seq<char>>, sep: Seq<char>) -> Seq<char>
    decreases words.len(),
{
    if words.len() == 0 {
        seq![]
    } else if words.len() == 1 {
        words[0]
    } else {
        join(words.drop_last(), sep) + sep + words.last()
    }
}

/// `words` joined with `sep`.
pub fn join_chars(words: &Vec<Vec<char>>, sep: &[char]) -> (r: Vec<char>)
    ensures
        r@ == join(words@.map_values(|w: Vec<char>| w@), sep@),
{
    let ghost ws = words@.map_values(|w: Vec<char>| w@);
    let mut r: Vec<char> = Vec::new();
    let mut i: usize = 0;
    while i < words.len()
        invariant
            i <= words@.len(),
            ws == words@.map_values(|w: Vec<char>| w@),
            r@ == join(ws.take(i as int), sep@),
        decreases words@.len() - i,
    {
        assert(ws.take(i + 1).drop_last() == ws.take(i as int));
        if i > 0 {
            append_chars(&mut r, sep);
        }
        append_chars(&mut r, &words[i]);
        i += 1;
    }
    assert(ws.take(words@.len() as int) == ws);
    r
}

/// Appends the characters of `b` to `a`.
pub fn append_chars(a: &mut Vec<char>, b: &[char])
    ensures
        final(a)@ == old(a)@ + b@,
{
    let mut i: usize = 0;
    while i < b.len()
        invariant
            i <= b@.len(),
            a@ == old(a)@ + b@.take(i as int),
        decreases b@.len() - i,
    {
        a.push(b[i]);
        assert(b@.take(i + 1) == b@.take(i as int).push(b@[i as int]));
        i += 1;
    }
    assert(b@.take(b@.len() as int) == b@);
}

/// The decimal digit for `d`, which is below ten.
pub open spec fn digit_of(d: nat) -> char {
    if d == 0 { '0' }
    else if d == 1 { '1' }
    else if d == 2 { '2' }
    else if d == 3 { '3' }
    else if d == 4 { '4' }
    else if d == 5 { '5' }
    else if d == 6 { '6' }
    else if d == 7 { '7' }
    else if d == 8 { '8' }
    else { '9' }
}

/// Decimal notation of `n`, as `Display` writes an unsigned integer.
pub open spec fn decimal(n: nat) -> Seq<char>
    decreases n,
{
    if n < 10 {
        seq![digit_of(n)]
    } else {
        decimal(n / 10).push(digit_of(n % 10))
    }
}

fn digit_char(d: u64) -> (c: char)
    requires
        d < 10,
    ensures
        c == digit_of(d as nat),
{
    if d == 0 { '0' }
    else if d == 1 { '1' }
    else if d == 2 { '2' }
    else if d == 3 { '3' }
    else if d == 4 { '4' }
    else if d == 5 { '5' }
    else if d == 6 { '6' }
    else if d == 7 { '7' }
    else if d == 8 { '8' }
    else { '9' }
}

/// Decimal notation of `n`.
pub fn decimal_chars(n: u64) -> (v: Vec<char>)
    ensures
        v@ == decimal(n as nat),
    decreases n,
{
    if n < 10 {
        let mut v: Vec<char> = Vec::new();
        v.push(digit_char(n));
        assert(v@ == seq![digit_of(n as nat)]);
        v
    } else {
        let mut v = decimal_chars(n / 10);
        v.push(digit_char(n % 10));
        v
    }
}


/// Whether `sep` occurs in `s` starting at position `i`.
pub open spec fn occurs_at(s: Seq<char>, sep: Seq<char>, i: int) -> bool {
    0 <= i && i + sep.len() <= s.len() && s.subrange(i, i + sep.len()) == sep
}

/// First position at or after `i` where `sep` occurs in `s`.
pub open spec fn find_sub_from(s: Seq<char>, sep: Seq<char>, i: int) -> Option<int>
    decreases s.len() + 1 - i,
{
    if i < 0 || i + sep.len() > s.len() {
        None
    } else if occurs_at(s, sep, i) {
        Some(i)
    } else {
        find_sub_from(s, sep, i + 1)
    }
}

/// A found occurrence lies at or after `i` and inside `s`.
pub proof fn lemma_find_sub_from(s: Seq<char>, sep: Seq<char>, i: int)
    ensures
        find_sub_from(s, sep, i) matches Some(k) ==> i <= k && k + sep.len() <= s.len()
            && occurs_at(s, sep, k),
    decreases s.len() + 1 - i,
{
    if !(i < 0 || i + sep.len() > s.len()) && !occurs_at(s, sep, i) {
        lemma_find_sub_from(s, sep, i + 1);
    }
}

/// The pieces of `s[start..]` between occurrences of `sep` (`str::split`).
pub open spec fn split_str_from(s: Seq<char>, sep: Seq<char>, start: int) -> Seq<Seq<char>>
    decreases s.len() + 1 - start,
    when sep.len() > 0 && 0 <= start
{
    match find_sub_from(s, sep, start) {
        None => seq![s.subrange(start, s.len() as int)],
        Some(k) => {
            proof {
                lemma_find_sub_from(s, sep, start);
            }
            seq![s.subrange(start, k)] + split_str_from(s, sep, k + sep.len())
        },
    }
}

/// The pieces of `s` between occurrences of `sep`.
pub open spec fn split_str(s: Seq<char>, sep: Seq<char>) -> Seq<Seq<char>> {
    split_str_from(s, sep, 0)
}

/// Whether `sep` occurs in `s` at position `i`.
fn occurs_at_exec(s: &[char], sep: &[char], i: usize) -> (r: bool)
    requires
        i + sep@.len() <= s@.len(),
    ensures
        r == occurs_at(s@, sep@, i as int),
{
    let mut j: usize = 0;
    let n: usize = s.len();
    while j < sep.len()
        invariant
            n == s@.len(),
            i + sep@.len() <= s@.len(),
            j <= sep@.len(),
            forall|k: int| 0 <= k < j ==> s@[i + k] == sep@[k],
        decreases sep@.len() - j,
    {
        if s[i + j] != sep[j] {
            assert(s@.subrange(i as int, i + sep@.len())[j as int] != sep@[j as int]);
            return false;
        }
        j += 1;
    }
    assert(s@.subrange(i as int, i + sep@.len()) =~= sep@);
    true
}

/// First occurrence of `sep` in `s` at or after `from`.
pub fn find_sub(s: &[char], sep: &[char], from: usize) -> (r: Option<usize>)
    requires
        from <= s@.len(),
    ensures
        r matches Some(k) ==> find_sub_from(s@, sep@, from as int) == Some(k as int),
        r is None ==> find_sub_from(s@, sep@, from as int) is None,
{
    if sep.len() > s.len() {
        return None;
    }
    let last: usize = s.len() - sep.len();
    let mut i = from;
    while i <= last
        invariant
            from <= i,
            last + sep@.len() == s@.len(),
            find_sub_from(s@, sep@, from as int) == find_sub_from(s@, sep@, i as int),
        decreases last + 1 - i,
    {
        if occurs_at_exec(s, sep, i) {
            return Some(i);
        }
        if i == last {
            return None;
        }
        i += 1;
    }
    None
}

/// The pieces of `s` between occurrences of `sep`, which is not empty.
pub fn split_on(s: &[char], sep: &[char]) -> (pieces: Vec<Vec<char>>)
    requires
        sep@.len() > 0,
    ensures
        pieces@.map_values(|p: Vec<char>| p@) == split_str(s@, sep@),
{
    let mut pieces: Vec<Vec<char>> = Vec::new();
    let mut start: usize = 0;
    loop
        invariant
            sep@.len() > 0,
            start <= s@.len(),
            split_str(s@, sep@) == pieces@.map_values(|p: Vec<char>| p@) + split_str_from(
                s@,
                sep@,
                start as int,
            ),
        decreases s@.len() + 1 - start,
    {
        let ghost before = pieces@.map_values(|p: Vec<char>| p@);
        match find_sub(s, sep, start) {
            None => {
                pieces.push(sub_chars(s, start, s.len()));
                assert(pieces@.map_values(|p: Vec<char>| p@) == before.push(
                    s@.subrange(start as int, s@.len() as int),
                ));
                assert(split_str(s@, sep@) == pieces@.map_values(|p: Vec<char>| p@));
                return pieces;
            },
            Some(k) => {
                proof {
                    lemma_find_sub_from(s@, sep@, start as int);
                }
                let n: usize = s.len();
                assert(k + sep@.len() <= n);
                pieces.push(sub_chars(s, start, k));
                assert(pieces@.map_values(|p: Vec<char>| p@) == before.push(
                    s@.subrange(start as int, k as int),
                ));
                assert(seq![s@.subrange(start as int, k as int)] + split_str_from(
                    s@,
                    sep@,
                    k + sep@.len(),
                ) == split_str_from(s@, sep@, start as int));
                assert(before.push(s@.subrange(start as int, k as int)) + split_str_from(
                    s@,
                    sep@,
                    k + sep@.len(),
                ) == before + split_str_from(s@, sep@, start as int));
                start = k + sep.len();
            },
        }
    }
}

/// Whether `c` is an ASCII decimal digit.
pub open spec fn is_digit(c: char) -> bool {
    '0' <= c && c <= '9'
}

/// The value of the decimal digits `d`.
pub open spec fn digits_value(d: Seq<char>) -> nat
    decreases d.len(),
{
    if d.len() == 0 {
        0
    } else {
        digits_value(d.drop_last()) * 10 + ((d.last() as int - '0' as int) as nat)
    }
}

/// `s` without one leading `+`.
pub open spec fn unsigned_digits(s: Seq<char>) -> Seq<char> {
    if s.len() > 0 && s[0] == '+' {
        s.drop_first()
    } else {
        s
    }
}

/// Whether every character of `d` is a decimal digit.
pub open spec fn all_digits(d: Seq<char>) -> bool {
    forall|i: int| 0 <= i < d.len() ==> is_digit(#[trigger] d[i])
}

/// What `str::parse::<u64>` gives for `s`: an optional leading `+`, then
/// one or more decimal digits whose value fits in 64 bits.
pub open spec fn parse_u64_spec(s: Seq<char>) -> Option<u64> {
    if unsigned_digits(s).len() == 0 || !all_digits(unsigned_digits(s)) {
        None
    } else if digits_value(unsigned_digits(s)) > u64::MAX {
        None
    } else {
        Some(digits_value(unsigned_digits(s)) as u64)
    }
}

/// A longer run of digits is worth at least as much as its prefix.
proof fn lemma_digits_value_prefix(d: Seq<char>, k: int)
    requires
        0 <= k <= d.len(),
        all_digits(d),
    ensures
        digits_value(d.take(k)) <= digits_value(d),
    decreases d.len() - k,
{
    if k < d.len() {
        lemma_digits_value_prefix(d, k + 1);
        assert(d.take(k + 1).drop_last() == d.take(k));
    } else {
        assert(d.take(k) == d);
    }
}

/// `str::parse::<u64>`.
pub fn parse_u64(s: &[char]) -> (r: Option<u64>)
    ensures
        r == parse_u64_spec(s@),
{
    let start: usize = if s.len() > 0 && s[0] == '+' { 1 } else { 0 };
    let ghost d = unsigned_digits(s@);
    assert(d == s@.skip(start as int));
    if start == s.len() {
        return None;
    }
    let mut acc: u64 = 0;
    let mut i: usize = start;
    while i < s.len()
        invariant
            start <= i <= s@.len(),
            d == s@.skip(start as int),
            d == unsigned_digits(s@),
            forall|k: int| 0 <= k < i - start ==> is_digit(d[k]),
            acc == digits_value(d.take(i - start)),
        decreases s@.len() - i,
    {
        let c = s[i];
        assert(d[i - start] == c);
        if !('0' <= c && c <= '9') {
            assert(!is_digit(d[i - start]));
            return None;
        }
        let dv: u64 = (c as u32 - '0' as u32) as u64;
        assert(d.take(i - start + 1).drop_last() == d.take(i - start));
        assert(d.take(i - start + 1).last() == c);
        assert(digits_value(d.take(i - start + 1)) == acc * 10 + dv);
        if acc > (u64::MAX - dv) / 10 {
            proof {
                assert(acc * 10 + dv > u64::MAX) by (nonlinear_arith)
                    requires
                        acc > (u64::MAX - dv) / 10,
                        dv <= 9,
                ;
                if all_digits(d) {
                    lemma_digits_value_prefix(d, i - start + 1);
                }
            }
            return None;
        }
        acc = acc * 10 + dv;
        i += 1;
    }
    assert(d.take(d.len() as int) == d);
    Some(acc)
}

} // verus!
