//! Character-level helpers every module reads and writes strings through.
//!
//! A string is modelled by its view, the sequence of its characters. Everything
//! here is proved against that view, except the handful of Unicode character
//! properties at the bottom, which are std's own and are named rather than
//! restated.

use vstd::prelude::*;

verus! {

// ---------------------------------------------------------------------------
// Reading and building
// ---------------------------------------------------------------------------

/// The characters of one string, in order.
pub fn chars_of(s: &str) -> (v: Vec<char>)
    ensures
        v@ == s@,
{
    let mut v: Vec<char> = Vec::new();
    for c in it: s.chars()
        invariant
            it.seq() == s@,
            v@ == s@.take(it.index() as int),
    {
        v.push(c);
    }
    v
}

/// `String::push`.
#[verifier::external_body]
fn push_char(s: &mut String, c: char)
    ensures
        final(s)@ == old(s)@.push(c),
{
    s.push(c);
}

/// Append a sequence of characters to a string.
pub fn push_chars(s: &mut String, v: &[char])
    ensures
        final(s)@ == old(s)@ + v@,
{
    let ghost start = s@;
    let mut i: usize = 0;
    while i < v.len()
        invariant
            i <= v@.len(),
            s@ == start + v@.take(i as int),
        decreases v@.len() - i,
    {
        proof {
            assert(v@.take(i + 1) == v@.take(i as int).push(v@[i as int]));
        }
        push_char(s, v[i]);
        i = i + 1;
    }
    proof {
        assert(v@.take(v@.len() as int) == v@);
    }
}

/// Append one string to another.
pub fn push_str(s: &mut String, t: &str)
    ensures
        final(s)@ == old(s)@ + t@,
{
    let v = chars_of(t);
    push_chars(s, v.as_slice());
}

/// A string holding exactly these characters.
pub fn string_of(v: &[char]) -> (s: String)
    ensures
        s@ == v@,
{
    let mut s = String::new();
    push_chars(&mut s, v);
    proof {
        assert(Seq::<char>::empty() + v@ == v@);
    }
    s
}

/// An owned copy of one string.
pub fn owned(t: &str) -> (s: String)
    ensures
        s@ == t@,
{
    let v = chars_of(t);
    string_of(v.as_slice())
}

/// Two strings, one after the other.
pub fn concat(a: &str, b: &str) -> (s: String)
    ensures
        s@ == a@ + b@,
{
    let mut s = owned(a);
    push_str(&mut s, b);
    s
}

/// Three strings, one after the other.
pub fn concat3(a: &str, b: &str, c: &str) -> (s: String)
    ensures
        s@ == a@ + b@ + c@,
{
    let mut s = concat(a, b);
    push_str(&mut s, c);
    s
}

// ---------------------------------------------------------------------------
// Comparing
// ---------------------------------------------------------------------------

/// Whether two character sequences are the same.
pub fn chars_eq(a: &[char], b: &[char]) -> (r: bool)
    ensures
        r == (a@ == b@),
{
    if a.len() != b.len() {
        return false;
    }
    let mut i: usize = 0;
    while i < a.len()
        invariant
            a@.len() == b@.len(),
            i <= a@.len(),
            forall|j: int| 0 <= j < i ==> a@[j] == b@[j],
        decreases a@.len() - i,
    {
        if a[i] != b[i] {
            return false;
        }
        i = i + 1;
    }
    proof {
        assert(a@ =~= b@);
    }
    true
}

/// Whether two strings are the same.
pub fn str_eq(a: &str, b: &str) -> (r: bool)
    ensures
        r == (a@ == b@),
{
    let va = chars_of(a);
    let vb = chars_of(b);
    chars_eq(va.as_slice(), vb.as_slice())
}

/// Whether a non-empty run of characters ends with `/`.
pub fn ends_with_slash(v: &[char]) -> (r: bool)
    requires
        v@.len() > 0,
    ensures
        r == (v@.last() == '/'),
{
    v[v.len() - 1] == '/'
}

/// Whether `p` is a prefix of `s`.
pub open spec fn is_prefix(p: Seq<char>, s: Seq<char>) -> bool {
    p.len() <= s.len() && s.subrange(0, p.len() as int) == p
}

/// Whether a character sequence begins with another.
pub fn chars_start_with(s: &[char], p: &[char]) -> (r: bool)
    ensures
        r == is_prefix(p@, s@),
{
    if p.len() > s.len() {
        return false;
    }
    let mut i: usize = 0;
    while i < p.len()
        invariant
            p@.len() <= s@.len(),
            i <= p@.len(),
            forall|j: int| 0 <= j < i ==> s@[j] == p@[j],
        decreases p@.len() - i,
    {
        if s[i] != p[i] {
            assert(s@.subrange(0, p@.len() as int)[i as int] != p@[i as int]);
            return false;
        }
        i = i + 1;
    }
    assert(s@.subrange(0, p@.len() as int) =~= p@);
    true
}

/// Whether a string begins with another.
pub fn starts_with(s: &str, p: &str) -> (r: bool)
    ensures
        r == is_prefix(p@, s@),
{
    let vs = chars_of(s);
    let vp = chars_of(p);
    chars_start_with(vs.as_slice(), vp.as_slice())
}

/// What follows a prefix, where the string carries it.
pub fn strip_prefix(s: &str, p: &str) -> (r: Option<String>)
    ensures
        r is Some <==> is_prefix(p@, s@),
        r matches Some(rest) ==> rest@ == s@.subrange(p@.len() as int, s@.len() as int),
{
    let vs = chars_of(s);
    let vp = chars_of(p);
    if !chars_start_with(vs.as_slice(), vp.as_slice()) {
        return None;
    }
    let rest = slice_chars(vs.as_slice(), vp.len(), vs.len());
    Some(string_of(rest.as_slice()))
}

/// The characters between two positions.
pub fn slice_chars(v: &[char], from: usize, to: usize) -> (r: Vec<char>)
    requires
        from <= to <= v@.len(),
    ensures
        r@ == v@.subrange(from as int, to as int),
{
    let mut r: Vec<char> = Vec::new();
    let mut i = from;
    while i < to
        invariant
            from <= i <= to,
            to <= v@.len(),
            r@ == v@.subrange(from as int, i as int),
        decreases to - i,
    {
        r.push(v[i]);
        proof {
            assert(v@.subrange(from as int, i + 1) == v@.subrange(from as int, i as int).push(
                v@[i as int],
            ));
        }
        i = i + 1;
    }
    r
}

/// Whether `needle` occurs in `hay` starting at `at`.
pub open spec fn occurs_at(hay: Seq<char>, needle: Seq<char>, at: int) -> bool {
    0 <= at && at + needle.len() <= hay.len() && hay.subrange(at, at + needle.len()) == needle
}

/// Whether `needle` occurs anywhere in `hay`.
pub open spec fn contains_seq(hay: Seq<char>, needle: Seq<char>) -> bool {
    exists|at: int| occurs_at(hay, needle, at)
}

/// Whether `needle` occurs in `hay` at `at`, as executable code.
pub fn chars_occur_at(hay: &[char], needle: &[char], at: usize) -> (r: bool)
    ensures
        r == occurs_at(hay@, needle@, at as int),
{
    if at > hay.len() || needle.len() > hay.len() - at {
        return false;
    }
    let mut i: usize = 0;
    while i < needle.len()
        invariant
            at + needle@.len() <= hay@.len(),
            i <= needle@.len(),
            forall|j: int| 0 <= j < i ==> hay@[at + j] == needle@[j],
        decreases needle@.len() - i,
    {
        assert(at + i < hay.len());
        if hay[at + i] != needle[i] {
            assert(hay@.subrange(at as int, at + needle@.len())[i as int] != needle@[i as int]);
            return false;
        }
        i = i + 1;
    }
    assert(hay@.subrange(at as int, at + needle@.len()) =~= needle@);
    true
}

/// Whether `needle` occurs anywhere in `hay`, as executable code.
pub fn chars_contain(hay: &[char], needle: &[char]) -> (r: bool)
    ensures
        r == contains_seq(hay@, needle@),
{
    if needle.len() > hay.len() {
        assert forall|at: int| !occurs_at(hay@, needle@, at) by {}
        return false;
    }
    let last = hay.len() - needle.len();
    let mut at: usize = 0;
    while at < last
        invariant
            at <= last,
            last == hay@.len() - needle@.len(),
            forall|k: int| 0 <= k < at ==> !occurs_at(hay@, needle@, k),
        decreases last - at,
    {
        if chars_occur_at(hay, needle, at) {
            return true;
        }
        at = at + 1;
    }
    if chars_occur_at(hay, needle, last) {
        return true;
    }
    assert forall|k: int| !occurs_at(hay@, needle@, k) by {
        if 0 <= k && k + needle@.len() <= hay@.len() {
            assert(k <= last);
        }
    }
    false
}

// ---------------------------------------------------------------------------
// Numbers
// ---------------------------------------------------------------------------

/// One decimal digit's character.
pub open spec fn digit_char(d: nat) -> char {
    if d == 0 {
        '0'
    } else if d == 1 {
        '1'
    } else if d == 2 {
        '2'
    } else if d == 3 {
        '3'
    } else if d == 4 {
        '4'
    } else if d == 5 {
        '5'
    } else if d == 6 {
        '6'
    } else if d == 7 {
        '7'
    } else if d == 8 {
        '8'
    } else {
        '9'
    }
}

/// A number in decimal, with no leading zeros: what `to_string` writes.
pub open spec fn decimal(n: nat) -> Seq<char>
    decreases n,
{
    if n < 10 {
        seq![digit_char(n)]
    } else {
        decimal(n / 10).push(digit_char(n % 10))
    }
}

fn digit(d: u64) -> (c: char)
    requires
        d < 10,
    ensures
        c == digit_char(d as nat),
{
    if d == 0 {
        '0'
    } else if d == 1 {
        '1'
    } else if d == 2 {
        '2'
    } else if d == 3 {
        '3'
    } else if d == 4 {
        '4'
    } else if d == 5 {
        '5'
    } else if d == 6 {
        '6'
    } else if d == 7 {
        '7'
    } else if d == 8 {
        '8'
    } else {
        '9'
    }
}

/// A number in decimal.
pub fn decimal_string(n: u64) -> (s: String)
    ensures
        s@ == decimal(n as nat),
    decreases n,
{
    if n < 10 {
        let mut s = String::new();
        push_char(&mut s, digit(n));
        proof {
            assert(Seq::<char>::empty().push(digit_char(n as nat)) =~= seq![digit_char(n as nat)]);
        }
        s
    } else {
        let mut s = decimal_string(n / 10);
        push_char(&mut s, digit(n % 10));
        s
    }
}

// ---------------------------------------------------------------------------
// Joining
// ---------------------------------------------------------------------------

/// Pieces joined by a separator, as `join` writes them.
pub open spec fn joined_with(pieces: Seq<Seq<char>>, sep: Seq<char>) -> Seq<char>
    decreases pieces.len(),
{
    if pieces.len() == 0 {
        Seq::empty()
    } else if pieces.len() == 1 {
        pieces[0]
    } else {
        joined_with(pieces.drop_last(), sep) + sep + pieces.last()
    }
}

/// The views of a list of strings.
pub open spec fn views(v: Seq<String>) -> Seq<Seq<char>> {
    v.map_values(|s: String| s@)
}

/// A list of strings joined by a separator.
pub fn join(pieces: &Vec<String>, sep: &str) -> (s: String)
    ensures
        s@ == joined_with(views(pieces@), sep@),
{
    let mut s = String::new();
    let mut i: usize = 0;
    while i < pieces.len()
        invariant
            i <= pieces@.len(),
            s@ == joined_with(views(pieces@).take(i as int), sep@),
        decreases pieces@.len() - i,
    {
        proof {
            assert(views(pieces@).take(i + 1).drop_last() =~= views(pieces@).take(i as int));
        }
        if i > 0 {
            push_str(&mut s, sep);
        }
        push_str(&mut s, pieces[i].as_str());
        proof {
            if i == 0 {
                assert(Seq::<char>::empty() + pieces@[0]@ =~= pieces@[0]@);
                assert(views(pieces@).take(1) =~= seq![pieces@[0]@]);
            }
        }
        i = i + 1;
    }
    proof {
        assert(views(pieces@).take(pieces@.len() as int) =~= views(pieces@));
    }
    s
}

// ---------------------------------------------------------------------------
// Unicode character properties, as std answers them
// ---------------------------------------------------------------------------

/// What `char::is_uppercase` answers for one character.
pub uninterp spec fn uppercase_property(c: char) -> bool;

/// What `char::is_alphanumeric` answers for one character.
pub uninterp spec fn alphanumeric_property(c: char) -> bool;

/// Whether one character has the Unicode `White_Space` property, which is
/// what `char::is_whitespace` answers: the ASCII tab, line feed, vertical tab,
/// form feed, carriage return and space, the next line and no-break spaces,
/// the ogham space mark, the spaces from the en quad to the hair space, the
/// line and paragraph separators, the narrow no-break and medium mathematical
/// spaces, and the ideographic space.
pub open spec fn whitespace_property(c: char) -> bool {
    let u = c as u32;
    ||| 0x9 <= u <= 0xD
    ||| u == 0x20
    ||| u == 0x85
    ||| u == 0xA0
    ||| u == 0x1680
    ||| 0x2000 <= u <= 0x200A
    ||| u == 0x2028
    ||| u == 0x2029
    ||| u == 0x202F
    ||| u == 0x205F
    ||| u == 0x3000
}

/// What `char::to_uppercase` yields for one character.
pub uninterp spec fn uppercase_mapping(c: char) -> Seq<char>;

/// What `str::to_lowercase` answers for one string.
pub uninterp spec fn lowercase_mapping(s: Seq<char>) -> Seq<char>;

/// `char::is_uppercase`: the Unicode `Uppercase` property of one character.
#[verifier::external_body]
pub(crate) fn is_uppercase(c: char) -> (r: bool)
    ensures
        r == uppercase_property(c),
{
    c.is_uppercase()
}

/// `char::is_alphanumeric`: the Unicode `Alphabetic` or `Numeric` property.
#[verifier::external_body]
pub(crate) fn is_alphanumeric(c: char) -> (r: bool)
    ensures
        r == alphanumeric_property(c),
{
    c.is_alphanumeric()
}

/// Whether one character is white space, as `char::is_whitespace` answers.
pub fn is_whitespace(c: char) -> (r: bool)
    ensures
        r == whitespace_property(c),
{
    let u = c as u32;
    (0x9 <= u && u <= 0xD) || u == 0x20 || u == 0x85 || u == 0xA0 || u == 0x1680 || (0x2000 <= u
        && u <= 0x200A) || u == 0x2028 || u == 0x2029 || u == 0x202F || u == 0x205F || u == 0x3000
}

/// `char::to_uppercase`: the characters the Unicode uppercase mapping of one
/// character yields, collected in order.
#[verifier::external_body]
pub(crate) fn to_uppercase(c: char) -> (r: Vec<char>)
    ensures
        r@ == uppercase_mapping(c),
{
    c.to_uppercase().collect()
}

/// `str::to_lowercase`: the Unicode lowercase mapping of a whole string.
#[verifier::external_body]
pub(crate) fn to_lowercase(s: &str) -> (r: String)
    ensures
        r@ == lowercase_mapping(s@),
{
    s.to_lowercase()
}

// ---------------------------------------------------------------------------
// Trimming
// ---------------------------------------------------------------------------

/// How many leading characters are white space.
pub open spec fn leading_space(s: Seq<char>) -> nat
    decreases s.len(),
{
    if s.len() > 0 && whitespace_property(s[0]) {
        1 + leading_space(s.drop_first())
    } else {
        0
    }
}

/// How many trailing characters are white space.
pub open spec fn trailing_space(s: Seq<char>) -> nat
    decreases s.len(),
{
    if s.len() > 0 && whitespace_property(s.last()) {
        1 + trailing_space(s.drop_last())
    } else {
        0
    }
}

/// A string without its leading and trailing white space: what `str::trim`
/// answers.
pub open spec fn trimmed(s: Seq<char>) -> Seq<char> {
    let front = s.skip(leading_space(s) as int);
    front.take(front.len() - trailing_space(front))
}

proof fn leading_space_bounded(s: Seq<char>)
    ensures
        leading_space(s) <= s.len(),
    decreases s.len(),
{
    if s.len() > 0 && whitespace_property(s[0]) {
        leading_space_bounded(s.drop_first());
    }
}

proof fn trailing_space_bounded(s: Seq<char>)
    ensures
        trailing_space(s) <= s.len(),
    decreases s.len(),
{
    if s.len() > 0 && whitespace_property(s.last()) {
        trailing_space_bounded(s.drop_last());
    }
}

/// The same string without leading and trailing white space.
pub fn trim(s: &str) -> (r: String)
    ensures
        r@ == trimmed(s@),
{
    let v = chars_of(s);
    let mut start: usize = 0;
    assert(v@.skip(0) =~= v@);
    while start < v.len() && is_whitespace(v[start])
        invariant
            start <= v@.len(),
            leading_space(v@) == start + leading_space(v@.skip(start as int)),
        decreases v@.len() - start,
    {
        proof {
            assert(v@.skip(start as int).drop_first() =~= v@.skip(start + 1));
        }
        start = start + 1;
    }
    let ghost front = v@.skip(start as int);
    proof {
        assert(leading_space(front) == 0);
    }
    let mut end: usize = v.len();
    assert(front =~= v@.subrange(start as int, v@.len() as int));
    while end > start && is_whitespace(v[end - 1])
        invariant
            start <= end <= v@.len(),
            front == v@.skip(start as int),
            trailing_space(front) == (v@.len() - end) + trailing_space(v@.subrange(start as int, end as int)),
        decreases end - start,
    {
        proof {
            assert(v@.subrange(start as int, end as int).drop_last() =~= v@.subrange(start as int, end - 1));
        }
        end = end - 1;
    }
    proof {
        assert(trailing_space(v@.subrange(start as int, end as int)) == 0);
        assert(front.take(front.len() - trailing_space(front)) =~= v@.subrange(start as int, end as int));
    }
    let kept = slice_chars(v.as_slice(), start, end);
    string_of(kept.as_slice())
}

/// A string without its trailing white space: what `str::trim_end` answers.
pub open spec fn trimmed_end(s: Seq<char>) -> Seq<char> {
    s.take(s.len() - trailing_space(s))
}

/// The same string without trailing white space.
pub fn trim_end(s: &str) -> (r: String)
    ensures
        r@ == trimmed_end(s@),
{
    let v = chars_of(s);
    let mut end: usize = v.len();
    proof {
        trailing_space_bounded(v@);
        assert(v@.subrange(0, v@.len() as int) =~= v@);
    }
    while end > 0 && is_whitespace(v[end - 1])
        invariant
            end <= v@.len(),
            trailing_space(v@) == (v@.len() - end) + trailing_space(v@.subrange(0, end as int)),
        decreases end,
    {
        proof {
            assert(v@.subrange(0, end as int).drop_last() =~= v@.subrange(0, end - 1));
        }
        end = end - 1;
    }
    proof {
        assert(trailing_space(v@.subrange(0, end as int)) == 0);
        assert(v@.take(v@.len() - trailing_space(v@)) =~= v@.subrange(0, end as int));
    }
    let kept = slice_chars(v.as_slice(), 0, end);
    string_of(kept.as_slice())
}

} // verus!

verus! {

// ---------------------------------------------------------------------------
// Finding a character
// ---------------------------------------------------------------------------

/// Where a character first occurs, if it does.
pub open spec fn first_at(s: Seq<char>, c: char) -> Option<nat>
    decreases s.len(),
{
    if s.len() == 0 {
        None
    } else if s[0] == c {
        Some(0)
    } else {
        match first_at(s.drop_first(), c) {
            Some(i) => Some(i + 1),
            None => None,
        }
    }
}

/// Where a character last occurs, if it does.
pub open spec fn last_at(s: Seq<char>, c: char) -> Option<nat>
    decreases s.len(),
{
    if s.len() == 0 {
        None
    } else if s.last() == c {
        Some((s.len() - 1) as nat)
    } else {
        last_at(s.drop_last(), c)
    }
}

proof fn first_at_is(s: Seq<char>, c: char, i: int)
    requires
        0 <= i < s.len(),
        s[i] == c,
        forall|k: int| 0 <= k < i ==> s[k] != c,
    ensures
        first_at(s, c) == Some(i as nat),
    decreases i,
{
    if i > 0 {
        first_at_is(s.drop_first(), c, i - 1);
    }
}

proof fn first_at_absent(s: Seq<char>, c: char)
    requires
        forall|k: int| 0 <= k < s.len() ==> s[k] != c,
    ensures
        first_at(s, c) is None,
    decreases s.len(),
{
    if s.len() > 0 {
        first_at_absent(s.drop_first(), c);
    }
}

proof fn last_at_is(s: Seq<char>, c: char, i: int)
    requires
        0 <= i < s.len(),
        s[i] == c,
        forall|k: int| i < k < s.len() ==> s[k] != c,
    ensures
        last_at(s, c) == Some(i as nat),
    decreases s.len() - i,
{
    if i < s.len() - 1 {
        last_at_is(s.drop_last(), c, i);
    }
}

proof fn last_at_absent(s: Seq<char>, c: char)
    requires
        forall|k: int| 0 <= k < s.len() ==> s[k] != c,
    ensures
        last_at(s, c) is None,
    decreases s.len(),
{
    if s.len() > 0 {
        last_at_absent(s.drop_last(), c);
    }
}

/// Where a character first occurs, as executable code.
pub fn find_first(s: &[char], c: char) -> (r: Option<usize>)
    ensures
        match first_at(s@, c) {
            Some(i) => r matches Some(j) && j == i,
            None => r is None,
        },
        match r {
            Some(i) => i < s@.len() && s@[i as int] == c,
            None => true,
        },
{
    let mut i: usize = 0;
    while i < s.len()
        invariant
            i <= s@.len(),
            forall|k: int| 0 <= k < i ==> s@[k] != c,
        decreases s@.len() - i,
    {
        if s[i] == c {
            proof {
                first_at_is(s@, c, i as int);
            }
            return Some(i);
        }
        i = i + 1;
    }
    proof {
        first_at_absent(s@, c);
    }
    None
}

/// Where a character last occurs, as executable code.
pub fn find_last(s: &[char], c: char) -> (r: Option<usize>)
    ensures
        match last_at(s@, c) {
            Some(i) => r matches Some(j) && j == i,
            None => r is None,
        },
        match r {
            Some(i) => i < s@.len() && s@[i as int] == c,
            None => true,
        },
{
    let mut i: usize = s.len();
    while i > 0
        invariant
            i <= s@.len(),
            forall|k: int| i <= k < s@.len() ==> s@[k] != c,
        decreases i,
    {
        if s[i - 1] == c {
            proof {
                last_at_is(s@, c, i - 1);
            }
            return Some(i - 1);
        }
        i = i - 1;
    }
    proof {
        last_at_absent(s@, c);
    }
    None
}

// ---------------------------------------------------------------------------
// Reading a number
// ---------------------------------------------------------------------------

/// Whether a character is an ASCII digit.
pub open spec fn is_digit(c: char) -> bool {
    '0' <= c <= '9'
}

/// The value of a run of ASCII digits.
pub open spec fn digits_value(s: Seq<char>) -> nat
    decreases s.len(),
{
    if s.len() == 0 {
        0
    } else {
        digits_value(s.drop_last()) * 10 + ((s.last() as nat) - ('0' as nat)) as nat
    }
}

/// The digits of an unsigned number: what follows an optional leading `+`.
pub open spec fn unsigned_digits(s: Seq<char>) -> Seq<char> {
    if s.len() > 0 && s[0] == '+' {
        s.drop_first()
    } else {
        s
    }
}

/// Whether every character of `s` is an ASCII digit.
pub open spec fn all_digits(s: Seq<char>) -> bool {
    forall|k: int| 0 <= k < s.len() ==> is_digit(#[trigger] s[k])
}

/// What `u16::from_str` answers: an optional `+`, then at least one digit
/// and nothing else, with a value that fits.
pub open spec fn parsed_u16(s: Seq<char>) -> Option<u16> {
    let digits = unsigned_digits(s);
    if digits.len() == 0 || !all_digits(digits) {
        None
    } else if digits_value(digits) > 65535 {
        None
    } else {
        Some(digits_value(digits) as u16)
    }
}

proof fn digits_value_grows(s: Seq<char>, i: int)
    requires
        0 <= i <= s.len(),
        all_digits(s),
    ensures
        digits_value(s.take(i)) <= digits_value(s),
    decreases s.len() - i,
{
    if i < s.len() {
        digits_value_grows(s, i + 1);
        assert(s.take(i + 1).drop_last() =~= s.take(i));
    } else {
        assert(s.take(i) =~= s);
    }
}

/// `u16::from_str`, proved against [`parsed_u16`].
pub fn parse_u16(s: &[char]) -> (r: Option<u16>)
    ensures
        r == parsed_u16(s@),
{
    let start: usize = if s.len() > 0 && s[0] == '+' { 1 } else { 0 };
    let ghost digits = unsigned_digits(s@);
    proof {
        assert(digits =~= s@.skip(start as int));
    }
    if start >= s.len() {
        return None;
    }
    let mut value: u32 = 0;
    let mut i: usize = start;
    while i < s.len()
        invariant
            start <= i <= s@.len(),
            start <= 1,
            digits == unsigned_digits(s@),
            digits == s@.skip(start as int),
            forall|k: int| start <= k < i ==> is_digit(#[trigger] s@[k]),
            value as nat == digits_value(s@.subrange(start as int, i as int)),
            value <= 65535,
        decreases s@.len() - i,
    {
        let c = s[i];
        if !('0' <= c && c <= '9') {
            proof {
                let j: int = i - start;
                assert(digits[j] == s@[i as int]);
                assert(!is_digit(digits[j]));
                assert(!all_digits(digits));
            }
            return None;
        }
        proof {
            assert(s@.subrange(start as int, i + 1).drop_last() =~= s@.subrange(
                start as int,
                i as int,
            ));
        }
        let d = (c as u32) - ('0' as u32);
        let next = value * 10 + d;
        if next > 65535 {
            proof {
                let part = s@.subrange(start as int, i + 1);
                assert(part.last() == c);
                assert(digits_value(part) == next);
                if all_digits(digits) {
                    assert(part =~= digits.take(i + 1 - start));
                    digits_value_grows(digits, i + 1 - start);
                }
            }
            return None;
        }
        value = next;
        i = i + 1;
    }
    proof {
        assert(s@.subrange(start as int, s@.len() as int) =~= digits);
        assert forall|k: int| 0 <= k < digits.len() implies is_digit(#[trigger] digits[k]) by {
            assert(digits[k] == s@[k + start]);
        }
    }
    Some(value as u16)
}

} // verus!
