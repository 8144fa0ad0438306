//! The copy catalogue.
//!
//! One row per key: the English sentence-case source and its casing class.
//! [`text`] renders a key by running its source through gettext, in a
//! catalogue bound to answer in UTF-8, and then
//! applying Header Capitalization to `Header` rows only, and only where the
//! source came back untranslated: a translation carries its own language's
//! capitalization, and Header Capitalization is an English rule.

pub mod keys;

use vstd::prelude::*;

use crate::text::{
    alphanumeric_property, chars_eq, chars_of, chars_start_with, is_alphanumeric, is_prefix,
    is_uppercase, joined_with, push_chars, push_str, string_of, to_uppercase, uppercase_mapping,
    uppercase_property,
};

pub use keys::{catalogue, catalogue_row, Casing, Key};

verus! {

/// One catalogue row.
#[derive(Clone, Copy, Debug)]
pub struct Entry {
    pub key: Key,
    pub source: &'static str,
    pub casing: Casing,
}

/// One catalogue row, by key. [`Key::Count`] is a count and not a key.
pub fn entry(key: Key) -> (e: Entry)
    requires
        key != Key::Count,
    ensures
        e.key == key,
        e.source@ == catalogue(key).0,
        e.casing == catalogue(key).1,
{
    let (source, casing) = catalogue_row(key);
    Entry { key, source, casing }
}

// ---------------------------------------------------------------------------
// Header Capitalization
// ---------------------------------------------------------------------------

/// The words of a source, split on single spaces exactly as `split(' ')`
/// splits them: two spaces in a row leave an empty word between them.
pub open spec fn split_words(s: Seq<char>) -> Seq<Seq<char>>
    decreases s.len(),
{
    if s.len() == 0 {
        seq![Seq::empty()]
    } else {
        let parts = split_words(s.drop_last());
        if s.last() == ' ' {
            parts.push(Seq::empty())
        } else {
            parts.update(parts.len() - 1, parts.last().push(s.last()))
        }
    }
}

/// A source always splits into at least one word.
pub proof fn split_words_nonempty(s: Seq<char>)
    ensures
        split_words(s).len() >= 1,
    decreases s.len(),
{
    if s.len() > 0 {
        split_words_nonempty(s.drop_last());
    }
}

/// Whether a word carries a capital anywhere.
pub open spec fn has_uppercase(w: Seq<char>) -> bool {
    exists|i: int| 0 <= i < w.len() && uppercase_property(#[trigger] w[i])
}

/// A word without the punctuation around it: its letters and digits.
pub open spec fn alphanumerics(w: Seq<char>) -> Seq<char>
    decreases w.len(),
{
    if w.len() == 0 {
        Seq::empty()
    } else if alphanumeric_property(w.last()) {
        alphanumerics(w.drop_last()).push(w.last())
    } else {
        alphanumerics(w.drop_last())
    }
}

/// The articles, conjunctions and prepositions of fewer than four letters that
/// Header Capitalization leaves lowercase.
pub open spec fn is_minor_word(w: Seq<char>) -> bool {
    w == "a"@ || w == "an"@ || w == "and"@ || w == "as"@ || w == "at"@ || w == "but"@ || w
        == "by"@ || w == "for"@ || w == "if"@ || w == "in"@ || w == "nor"@ || w == "of"@ || w
        == "off"@ || w == "on"@ || w == "or"@ || w == "out"@ || w == "per"@ || w == "so"@ || w
        == "the"@ || w == "to"@ || w == "up"@ || w == "via"@ || w == "vs"@ || w == "yet"@
}

/// One word under GNOME's rule: a word that already carries a capital is left
/// as it is, a minor word is left lowercase unless it must be capitalized,
/// and every other word has its first character raised.
pub open spec fn capitalized_word(w: Seq<char>, always: bool) -> Seq<char> {
    if has_uppercase(w) {
        w
    } else if !always && is_minor_word(alphanumerics(w)) {
        w
    } else if w.len() == 0 {
        w
    } else {
        uppercase_mapping(w[0]) + w.drop_first()
    }
}

/// Header Capitalization of a whole source: every word capitalized except the
/// minor ones, and the first and the last word always.
pub open spec fn header_case(s: Seq<char>) -> Seq<char> {
    let words = split_words(s);
    let last = words.len() - 1;
    joined_with(
        Seq::new(words.len(), |i: int| capitalized_word(words[i], i == 0 || i == last)),
        " "@,
    )
}

/// The letters and digits of one word, as executable code.
fn trimmed_word(word: &[char]) -> (r: Vec<char>)
    ensures
        r@ == alphanumerics(word@),
{
    let mut r: Vec<char> = Vec::new();
    let mut i: usize = 0;
    while i < word.len()
        invariant
            i <= word@.len(),
            r@ == alphanumerics(word@.take(i as int)),
        decreases word@.len() - i,
    {
        proof {
            assert(word@.take(i + 1).drop_last() =~= word@.take(i as int));
        }
        if is_alphanumeric(word[i]) {
            r.push(word[i]);
        }
        i = i + 1;
    }
    proof {
        assert(word@.take(word@.len() as int) =~= word@);
    }
    r
}

fn is_one_of(word: &[char], candidate: &str) -> (r: bool)
    ensures
        r == (word@ == candidate@),
{
    let c = chars_of(candidate);
    chars_eq(word, c.as_slice())
}

fn is_minor(word: &[char]) -> (r: bool)
    ensures
        r == is_minor_word(word@),
{
    is_one_of(word, "a") || is_one_of(word, "an") || is_one_of(word, "and") || is_one_of(
        word,
        "as",
    ) || is_one_of(word, "at") || is_one_of(word, "but") || is_one_of(word, "by") || is_one_of(
        word,
        "for",
    ) || is_one_of(word, "if") || is_one_of(word, "in") || is_one_of(word, "nor") || is_one_of(
        word,
        "of",
    ) || is_one_of(word, "off") || is_one_of(word, "on") || is_one_of(word, "or") || is_one_of(
        word,
        "out",
    ) || is_one_of(word, "per") || is_one_of(word, "so") || is_one_of(word, "the") || is_one_of(
        word,
        "to",
    ) || is_one_of(word, "up") || is_one_of(word, "via") || is_one_of(word, "vs") || is_one_of(
        word,
        "yet",
    )
}

fn any_uppercase(word: &[char]) -> (r: bool)
    ensures
        r == has_uppercase(word@),
{
    let mut i: usize = 0;
    while i < word.len()
        invariant
            i <= word@.len(),
            forall|j: int| 0 <= j < i ==> !uppercase_property(#[trigger] word@[j]),
        decreases word@.len() - i,
    {
        if is_uppercase(word[i]) {
            return true;
        }
        i = i + 1;
    }
    false
}

fn copy_chars(word: &[char]) -> (r: Vec<char>)
    ensures
        r@ == word@,
{
    let r = crate::text::slice_chars(word, 0, word.len());
    assert(word@.subrange(0, word@.len() as int) =~= word@);
    r
}

/// One word, capitalized under the rule.
fn capitalize_word(word: &[char], always: bool) -> (r: Vec<char>)
    ensures
        r@ == capitalized_word(word@, always),
{
    if any_uppercase(word) {
        return copy_chars(word);
    }
    if !always {
        let trimmed = trimmed_word(word);
        if is_minor(trimmed.as_slice()) {
            return copy_chars(word);
        }
    }
    if word.len() == 0 {
        return Vec::new();
    }
    let mut r = to_uppercase(word[0]);
    let mut i: usize = 1;
    while i < word.len()
        invariant
            1 <= i <= word@.len(),
            r@ == uppercase_mapping(word@[0]) + word@.subrange(1, i as int),
        decreases word@.len() - i,
    {
        r.push(word[i]);
        proof {
            assert(word@.subrange(1, i + 1) == word@.subrange(1, i as int).push(word@[i as int]));
        }
        i = i + 1;
    }
    proof {
        assert(word@.subrange(1, word@.len() as int) =~= word@.drop_first());
    }
    r
}

/// The words of a source, as executable code.
pub(crate) fn words_of(s: &[char]) -> (words: Vec<Vec<char>>)
    ensures
        words@.len() == split_words(s@).len(),
        forall|i: int| 0 <= i < words@.len() ==> (#[trigger] words@[i])@ == split_words(s@)[i],
{
    let mut words: Vec<Vec<char>> = Vec::new();
    words.push(Vec::new());
    let mut i: usize = 0;
    proof {
        assert(s@.take(0) =~= Seq::<char>::empty());
    }
    while i < s.len()
        invariant
            i <= s@.len(),
            words@.len() == split_words(s@.take(i as int)).len(),
            words@.len() >= 1,
            forall|k: int|
                0 <= k < words@.len() ==> (#[trigger] words@[k])@ == split_words(
                    s@.take(i as int),
                )[k],
        decreases s@.len() - i,
    {
        proof {
            assert(s@.take(i + 1).drop_last() =~= s@.take(i as int));
            split_words_nonempty(s@.take(i as int));
        }
        if s[i] == ' ' {
            words.push(Vec::new());
        } else {
            let last = words.len() - 1;
            let mut word = words.pop().unwrap();
            word.push(s[i]);
            words.push(word);
            proof {
                assert(last == words@.len() - 1);
            }
        }
        i = i + 1;
    }
    proof {
        assert(s@.take(s@.len() as int) =~= s@);
    }
    words
}

/// Header Capitalization, GNOME's rule: capitalize every word except articles,
/// conjunctions and prepositions of fewer than four letters, and always
/// capitalize the first and the last word. A word that already carries a
/// capital is left exactly as it is, so an acronym survives.
pub fn header_capitalized(source: &str) -> (r: String)
    ensures
        r@ == header_case(source@),
{
    let v = chars_of(source);
    let words = words_of(v.as_slice());
    proof {
        split_words_nonempty(source@);
    }
    let ghost spec_words = split_words(source@);
    let ghost target = Seq::new(
        spec_words.len(),
        |i: int| capitalized_word(spec_words[i], i == 0 || i == spec_words.len() - 1),
    );
    let last = words.len() - 1;
    let mut r = String::new();
    let mut i: usize = 0;
    while i < words.len()
        invariant
            words@.len() == spec_words.len(),
            last == words@.len() - 1,
            i <= words@.len(),
            target.len() == spec_words.len(),
            forall|k: int| 0 <= k < words@.len() ==> (#[trigger] words@[k])@ == spec_words[k],
            forall|k: int|
                0 <= k < target.len() ==> #[trigger] target[k] == capitalized_word(
                    spec_words[k],
                    k == 0 || k == spec_words.len() - 1,
                ),
            r@ == joined_with(target.take(i as int), " "@),
        decreases words@.len() - i,
    {
        let word = capitalize_word(words[i].as_slice(), i == 0 || i == last);
        proof {
            assert(target.take(i + 1).drop_last() =~= target.take(i as int));
        }
        if i > 0 {
            push_str(&mut r, " ");
        }
        push_chars(&mut r, word.as_slice());
        proof {
            if i == 0 {
                assert(target.take(1) =~= seq![target[0]]);
                assert(Seq::<char>::empty() + word@ =~= word@);
            }
        }
        i = i + 1;
    }
    proof {
        assert(target.take(target.len() as int) =~= target);
    }
    r
}

// ---------------------------------------------------------------------------
// Rendering
// ---------------------------------------------------------------------------

/// How a key renders, given what gettext answered for its source: a
/// translation as it came back, and the English source under its casing
/// class otherwise.
pub open spec fn rendered(key: Key, translated: Seq<char>) -> Seq<char> {
    if translated != catalogue(key).0 {
        translated
    } else {
        match catalogue(key).1 {
            Casing::Header => header_case(catalogue(key).0),
            Casing::Sentence => catalogue(key).0,
        }
    }
}

/// Whether a string is how this key renders under some translation.
pub open spec fn renders(key: Key, text: Seq<char>) -> bool {
    exists|translated: Seq<char>| text == rendered(key, translated)
}

/// Whether a source can reach gettext at all: a source with a NUL byte in it
/// cannot be handed to the C interface.
pub open spec fn no_nul(s: Seq<char>) -> bool {
    forall|i: int| 0 <= i < s.len() ==> s[i] != '\0'
}

/// The gettext domain this application's catalogue is bound under.
pub const TEXT_DOMAIN: &'static str = "fermix-desktop";

/// Evidence that this process's catalogue answers in UTF-8: only
/// [`bind_utf8_catalogue`] makes one, and only once the binding took.
struct Utf8Catalogue {
    bound: (),
}

/// `gettextrs::bind_textdomain_codeset`: ask gettext to convert every answer
/// of this application's domain to UTF-8, which is what a Rust string holds.
/// Evidence of the binding is handed back only where gettext reports the
/// codeset it now converts to; a refused binding gives nothing.
#[verifier::external_body]
fn bind_utf8_catalogue() -> (r: Option<Utf8Catalogue>) {
    match gettextrs::bind_textdomain_codeset(TEXT_DOMAIN, "UTF-8") {
        Ok(Some(_)) => Some(Utf8Catalogue { bound: () }),
        Ok(None) => None,
        Err(_) => None,
    }
}

/// `gettextrs::dgettext`: the translation this application's domain holds for
/// one message, or the message itself where it holds none.
///
/// What comes back depends on the locale and the catalogues installed, so
/// nothing about its words is stated. It comes out of a C string, so it holds
/// no NUL. The call panics on a message with a NUL byte, which `requires`
/// keeps out, and on an answer that is not UTF-8, which the domain's binding
/// to UTF-8 rules out: the call takes the evidence of that binding.
#[verifier::external_body]
fn translate(bound: &Utf8Catalogue, message: &str) -> (translated: String)
    requires
        no_nul(message@),
    ensures
        no_nul(translated@),
{
    gettextrs::dgettext(TEXT_DOMAIN, message)
}

/// What gettext answered for one key's source: the translation the catalogue
/// holds, or the source itself. A source that cannot reach gettext, or a
/// domain that cannot be bound to UTF-8, answers with the source.
pub fn translation(key: Key) -> (t: String)
    requires
        key != Key::Count,
    ensures
        no_nul(catalogue(key).0) ==> no_nul(t@),
        !no_nul(catalogue(key).0) ==> t@ == catalogue(key).0,
{
    let row = entry(key);
    if has_nul(row.source) {
        return crate::text::owned(row.source);
    }
    match bind_utf8_catalogue() {
        Some(bound) => translate(&bound, row.source),
        None => crate::text::owned(row.source),
    }
}

/// One key's rendering, given what gettext answered for its source.
pub fn render(key: Key, translated: &str) -> (r: String)
    requires
        key != Key::Count,
    ensures
        r@ == rendered(key, translated@),
{
    let row = entry(key);
    let t = chars_of(translated);
    let s = chars_of(row.source);
    if !chars_eq(t.as_slice(), s.as_slice()) {
        return string_of(t.as_slice());
    }
    match row.casing {
        Casing::Header => header_capitalized(row.source),
        Casing::Sentence => string_of(s.as_slice()),
    }
}

fn has_nul(s: &str) -> (r: bool)
    ensures
        r == !no_nul(s@),
{
    let v = chars_of(s);
    let mut i: usize = 0;
    while i < v.len()
        invariant
            i <= v@.len(),
            v@ == s@,
            forall|j: int| 0 <= j < i ==> v@[j] != '\0',
        decreases v@.len() - i,
    {
        if v[i] == '\0' {
            return true;
        }
        i = i + 1;
    }
    false
}

/// The rendered text of one key.
pub fn text(key: Key) -> (r: String)
    requires
        key != Key::Count,
    ensures
        renders(key, r@),
{
    let translated = translation(key);
    render(key, translated.as_str())
}

// ---------------------------------------------------------------------------
// Filling markers
// ---------------------------------------------------------------------------

/// Every occurrence of `pattern` in `s` replaced by `with`, left to right and
/// without overlap, as `str::replace` does it. An empty pattern matches
/// before every character and at the end.
pub open spec fn replace_all(s: Seq<char>, pattern: Seq<char>, with: Seq<char>) -> Seq<char>
    decreases s.len(),
{
    if pattern.len() == 0 {
        if s.len() == 0 {
            with
        } else {
            with + seq![s[0]] + replace_all(s.drop_first(), pattern, with)
        }
    } else if s.len() < pattern.len() {
        s
    } else if is_prefix(pattern, s) {
        with + replace_all(s.skip(pattern.len() as int), pattern, with)
    } else {
        seq![s[0]] + replace_all(s.drop_first(), pattern, with)
    }
}

/// `str::replace`, proved against [`replace_all`].
pub fn replace(s: &str, pattern: &str, with: &str) -> (r: String)
    ensures
        r@ == replace_all(s@, pattern@, with@),
{
    let v = chars_of(s);
    let p = chars_of(pattern);
    let w = chars_of(with);
    let mut out: Vec<char> = Vec::new();
    let mut i: usize = 0;
    proof {
        assert(v@.skip(0) =~= v@);
        assert(Seq::<char>::empty() + replace_all(v@, p@, w@) =~= replace_all(v@, p@, w@));
    }
    while i < v.len()
        invariant
            i <= v@.len(),
            out@ + replace_all(v@.skip(i as int), p@, w@) == replace_all(v@, p@, w@),
        decreases v@.len() - i,
    {
        let ghost rest = v@.skip(i as int);
        let rest_len = v.len() - i;
        if p.len() == 0 {
            proof {
                assert(rest.drop_first() =~= v@.skip(i + 1));
                assert(out@ + (w@ + seq![rest[0]] + replace_all(rest.drop_first(), p@, w@))
                    =~= (out@ + w@).push(v@[i as int]) + replace_all(v@.skip(i + 1), p@, w@));
            }
            let mut k: usize = 0;
            let ghost before = out@;
            while k < w.len()
                invariant
                    k <= w@.len(),
                    out@ == before + w@.take(k as int),
                decreases w@.len() - k,
            {
                proof {
                    assert(w@.take(k + 1) =~= w@.take(k as int).push(w@[k as int]));
                }
                out.push(w[k]);
                k = k + 1;
            }
            proof {
                assert(w@.take(w@.len() as int) =~= w@);
            }
            out.push(v[i]);
            i = i + 1;
        } else if rest_len < p.len() {
            proof {
                assert(replace_all(rest, p@, w@) == rest);
            }
            let tail = slice_from(v.as_slice(), i);
            let mut k: usize = 0;
            let ghost before = out@;
            while k < tail.len()
                invariant
                    k <= tail@.len(),
                    out@ == before + tail@.take(k as int),
                decreases tail@.len() - k,
            {
                proof {
                    assert(tail@.take(k + 1) =~= tail@.take(k as int).push(tail@[k as int]));
                }
                out.push(tail[k]);
                k = k + 1;
            }
            proof {
                assert(tail@.take(tail@.len() as int) =~= tail@);
                assert(v@.skip(v@.len() as int) =~= Seq::<char>::empty());
                assert(replace_all(Seq::<char>::empty(), p@, w@) == Seq::<char>::empty());
                assert(out@ + Seq::<char>::empty() =~= out@);
            }
            i = v.len();
        } else {
            let tail = slice_from(v.as_slice(), i);
            if chars_start_with(tail.as_slice(), p.as_slice()) {
                proof {
                    assert(rest.skip(p@.len() as int) =~= v@.skip(i + p@.len()));
                }
                let mut k: usize = 0;
                let ghost before = out@;
                while k < w.len()
                    invariant
                        k <= w@.len(),
                        out@ == before + w@.take(k as int),
                    decreases w@.len() - k,
                {
                    proof {
                        assert(w@.take(k + 1) =~= w@.take(k as int).push(w@[k as int]));
                    }
                    out.push(w[k]);
                    k = k + 1;
                }
                proof {
                    assert(w@.take(w@.len() as int) =~= w@);
                    assert(before + (w@ + replace_all(v@.skip(i + p@.len()), p@, w@)) =~= (before
                        + w@) + replace_all(v@.skip(i + p@.len()), p@, w@));
                }
                i = i + p.len();
            } else {
                proof {
                    assert(rest.drop_first() =~= v@.skip(i + 1));
                    assert(out@ + (seq![rest[0]] + replace_all(rest.drop_first(), p@, w@))
                        =~= out@.push(v@[i as int]) + replace_all(v@.skip(i + 1), p@, w@));
                }
                out.push(v[i]);
                i = i + 1;
            }
        }
    }
    proof {
        assert(v@.skip(i as int) =~= Seq::<char>::empty());
        assert(out@ + replace_all(Seq::<char>::empty(), p@, w@) == replace_all(v@, p@, w@));
        if p@.len() == 0 {
            assert(replace_all(Seq::<char>::empty(), p@, w@) == w@);
        } else {
            assert(replace_all(Seq::<char>::empty(), p@, w@) == Seq::<char>::empty());
        }
    }
    let mut r = string_of(out.as_slice());
    if p.len() == 0 {
        push_chars(&mut r, w.as_slice());
    } else {
        proof {
            assert(out@ + Seq::<char>::empty() =~= out@);
        }
    }
    r
}

fn slice_from(v: &[char], from: usize) -> (r: Vec<char>)
    requires
        from <= v@.len(),
    ensures
        r@ == v@.skip(from as int),
{
    let r = crate::text::slice_chars(v, from, v.len());
    proof {
        assert(v@.subrange(from as int, v@.len() as int) =~= v@.skip(from as int));
    }
    r
}

/// A rendered text with every marker filled in, in the order given.
pub open spec fn filled(rendered: Seq<char>, values: Seq<(Seq<char>, Seq<char>)>) -> Seq<char>
    decreases values.len(),
{
    if values.len() == 0 {
        rendered
    } else {
        replace_all(
            filled(rendered, values.drop_last()),
            values.last().0,
            values.last().1,
        )
    }
}

/// The marker and value pairs, as views.
pub open spec fn pair_views(values: Seq<(&str, &str)>) -> Seq<(Seq<char>, Seq<char>)> {
    values.map_values(|p: (&str, &str)| (p.0@, p.1@))
}

/// One rendered text with its markers filled in.
pub fn fill_rendered(rendered: String, values: &[(&str, &str)]) -> (r: String)
    ensures
        r@ == filled(rendered@, pair_views(values@)),
{
    let mut out = rendered;
    let mut i: usize = 0;
    while i < values.len()
        invariant
            i <= values@.len(),
            out@ == filled(rendered@, pair_views(values@).take(i as int)),
        decreases values@.len() - i,
    {
        proof {
            assert(pair_views(values@).take(i + 1).drop_last() =~= pair_views(values@).take(
                i as int,
            ));
        }
        let (marker, value) = values[i];
        out = replace(out.as_str(), marker, value);
        i = i + 1;
    }
    proof {
        assert(pair_views(values@).take(values@.len() as int) =~= pair_views(values@));
    }
    out
}

/// The rendered text of one key with its markers filled in.
///
/// A marker the caller does not supply stays in the string, which is visible
/// rather than shipped quietly.
pub fn fill(key: Key, values: &[(&str, &str)]) -> (r: String)
    requires
        key != Key::Count,
    ensures
        exists|t: Seq<char>| #[trigger] renders(key, t) && r@ == filled(t, pair_views(values@)),
{
    let rendered = text(key);
    let ghost t = rendered@;
    let r = fill_rendered(rendered, values);
    assert(renders(key, t) && r@ == filled(t, pair_views(values@)));
    r
}

} // verus!
