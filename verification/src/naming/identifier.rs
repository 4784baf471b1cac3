//! The spellings of a resource name that the templates use: Pascal, camel,
//! kebab and snake case (computed by `heck`) and their plurals.
use heck::{ToKebabCase, ToLowerCamelCase, ToPascalCase, ToSnakeCase};
use vstd::prelude::*;
use vstd::string::StringSliceAdditionalSpecFns;

verus! {

/// What `heck`'s `to_pascal_case` returns for a string.
pub uninterp spec fn heck_pascal_case(s: Seq<char>) -> Seq<char>;

/// What `heck`'s `to_lower_camel_case` returns for a string.
pub uninterp spec fn heck_lower_camel_case(s: Seq<char>) -> Seq<char>;

/// What `heck`'s `to_kebab_case` returns for a string.
pub uninterp spec fn heck_kebab_case(s: Seq<char>) -> Seq<char>;

/// What `heck`'s `to_snake_case` returns for a string.
pub uninterp spec fn heck_snake_case(s: Seq<char>) -> Seq<char>;

/// Calls `heck::ToPascalCase::to_pascal_case`; claims only that the result is
/// a function of the input (named `heck_pascal_case`).
#[verifier::external_body]
fn pascal_case(s: &str) -> (r: String)
    ensures
        r@ == heck_pascal_case(s@),
{
    s.to_pascal_case()
}

/// Calls `heck::ToLowerCamelCase::to_lower_camel_case`; claims only that the
/// result is a function of the input (named `heck_lower_camel_case`).
#[verifier::external_body]
fn lower_camel_case(s: &str) -> (r: String)
    ensures
        r@ == heck_lower_camel_case(s@),
{
    s.to_lower_camel_case()
}

/// Calls `heck::ToKebabCase::to_kebab_case`; claims only that the result is a
/// function of the input (named `heck_kebab_case`).
#[verifier::external_body]
fn kebab_case(s: &str) -> (r: String)
    ensures
        r@ == heck_kebab_case(s@),
{
    s.to_kebab_case()
}

/// Calls `heck::ToSnakeCase::to_snake_case`; claims only that the result is a
/// function of the input (named `heck_snake_case`).
#[verifier::external_body]
fn snake_case(s: &str) -> (r: String)
    ensures
        r@ == heck_snake_case(s@),
{
    s.to_snake_case()
}

pub open spec fn is_vowel(c: char) -> bool {
    c == 'a' || c == 'e' || c == 'i' || c == 'o' || c == 'u'
}

/// The word has a second-to-last character and it is a lowercase vowel.
pub open spec fn spec_ends_with_vowel_y(word: Seq<char>) -> bool {
    word.len() >= 2 && is_vowel(word[word.len() - 2])
}

pub open spec fn ends_with_pair(word: Seq<char>, a: char, b: char) -> bool {
    word.len() >= 2 && word[word.len() - 2] == a && word[word.len() - 1] == b
}

/// English plural of a lowercase identifier: consonant + `y` becomes `ies`;
/// a final `s`, `x`, `ch` or `sh` takes `es`; anything else takes `s`; the
/// empty word stays empty.
pub open spec fn plural_of(word: Seq<char>) -> Seq<char> {
    if word.len() == 0 {
        word
    } else if word.last() == 'y' && !spec_ends_with_vowel_y(word) {
        word.drop_last() + seq!['i', 'e', 's']
    } else if word.last() == 's' || word.last() == 'x' || ends_with_pair(word, 'c', 'h')
        || ends_with_pair(word, 's', 'h') {
        word + seq!['e', 's']
    } else {
        word + seq!['s']
    }
}

/// Whether the character before the final one is a vowel; a word of fewer
/// than two characters has none. A word of a single character that takes two
/// or more bytes in UTF-8 is left out: its byte length passes the length test
/// while it has no character before the last.
pub fn ends_with_vowel_y(word: &str) -> (r: bool)
    requires
        word@.len() >= 2 || word.spec_bytes().len() < 2,
    ensures
        r == spec_ends_with_vowel_y(word@),
{
    let n = word.unicode_len();
    if n < 2 {
        return false;
    }
    let prev = word.get_char(n - 2);
    prev == 'a' || prev == 'e' || prev == 'i' || prev == 'o' || prev == 'u'
}

/// The plural of an identifier, as `plural_of` defines it.
pub fn pluralize(word: &str) -> (r: String)
    ensures
        r@ == plural_of(word@),
{
    let n = word.unicode_len();
    if n == 0 {
        return String::from_str(word);
    }
    let last = word.get_char(n - 1);
    let before_last = if n >= 2 {
        word.get_char(n - 2)
    } else {
        ' '
    };
    if last == 'y' {
        proof {
            if word@.len() == 1 {
                assert(word@ =~= seq!['y']);
                assert(word@.drop_first() =~= Seq::<char>::empty());
                assert(vstd::utf8::encode_utf8(Seq::<char>::empty()) =~= Seq::<u8>::empty());
                assert(vstd::utf8::has_width_1_encoding('y' as u32));
                assert(vstd::utf8::encode_scalar('y' as u32).len() == 1);
                assert(word.spec_bytes().len() == 1);
            }
        }
        if !ends_with_vowel_y(word) {
            let mut out = String::from_str(word.substring_char(0, n - 1));
            let suffix = "ies";
            proof {
                reveal_strlit("ies");
                assert(suffix@ =~= seq!['i', 'e', 's']);
                assert(word@.subrange(0, n - 1) =~= word@.drop_last());
            }
            out.append(suffix);
            return out;
        }
    }
    let mut out = String::from_str(word);
    if last == 's' || last == 'x' || (n >= 2 && before_last == 'c' && last == 'h') || (n >= 2
        && before_last == 's' && last == 'h') {
        let suffix = "es";
        proof {
            reveal_strlit("es");
            assert(suffix@ =~= seq!['e', 's']);
        }
        out.append(suffix);
    } else {
        let suffix = "s";
        proof {
            reveal_strlit("s");
            assert(suffix@ =~= seq!['s']);
        }
        out.append(suffix);
    }
    out
}

/// The spellings of a resource name.
#[derive(Debug)]
pub struct NameSet {
    pub pascal: String,
    pub camel: String,
    pub kebab: String,
    pub snake: String,
    pub plural_kebab: String,
    pub plural_snake: String,
    pub plural_camel: String,
}

impl NameSet {
    /// The name set of the given case spellings: each is kept, and the kebab,
    /// snake and camel spellings are pluralized.
    pub fn from_cases(pascal: String, camel: String, kebab: String, snake: String) -> (r: Self)
        ensures
            r.pascal@ == pascal@,
            r.camel@ == camel@,
            r.kebab@ == kebab@,
            r.snake@ == snake@,
            r.plural_kebab@ == plural_of(kebab@),
            r.plural_snake@ == plural_of(snake@),
            r.plural_camel@ == plural_of(camel@),
    {
        let plural_kebab = pluralize(kebab.as_str());
        let plural_snake = pluralize(snake.as_str());
        let plural_camel = pluralize(camel.as_str());
        NameSet { pascal, camel, kebab, snake, plural_kebab, plural_snake, plural_camel }
    }

    /// The name set of a raw name: its Pascal spelling, the camel, kebab and
    /// snake spellings of that Pascal spelling, and their plurals.
    pub fn from_raw(raw: &str) -> (r: Self)
        ensures
            r.pascal@ == heck_pascal_case(raw@),
            r.camel@ == heck_lower_camel_case(r.pascal@),
            r.kebab@ == heck_kebab_case(r.pascal@),
            r.snake@ == heck_snake_case(r.pascal@),
            r.plural_kebab@ == plural_of(r.kebab@),
            r.plural_snake@ == plural_of(r.snake@),
            r.plural_camel@ == plural_of(r.camel@),
    {
        let pascal = pascal_case(raw);
        let camel = lower_camel_case(pascal.as_str());
        let kebab = kebab_case(pascal.as_str());
        let snake = snake_case(pascal.as_str());
        Self::from_cases(pascal, camel, kebab, snake)
    }
}

/// Law: the plural of a word that is not empty ends with `s`, is longer than
/// the word, and keeps every character of the word but possibly the last.
pub proof fn law_plural_extends_word(word: Seq<char>)
    requires
        word.len() > 0,
    ensures
        plural_of(word).len() > word.len(),
        plural_of(word).last() == 's',
        plural_of(word).subrange(0, word.len() - 1) == word.drop_last(),
{
    let p = plural_of(word);
    assert(p.subrange(0, word.len() - 1) =~= word.drop_last());
}

/// Law: a word ending in `s`, `x`, `ch` or `sh` takes `es`, whatever comes
/// before that ending.
pub proof fn law_plural_of_sibilant(stem: Seq<char>, ending: Seq<char>)
    requires
        ending == seq!['s'] || ending == seq!['x'] || ending == seq!['c', 'h'] || ending == seq![
            's',
            'h',
        ],
    ensures
        plural_of(stem + ending) == stem + ending + seq!['e', 's'],
{
    let w = stem + ending;
    assert(w.last() == ending.last());
    if ending.len() == 2 {
        assert(w[w.len() - 2] == ending[0]);
    }
}

/// Law: a final `y` after a consonant, or alone, turns into `ies`; after a
/// lowercase vowel the `y` stays and takes `s`.
pub proof fn law_plural_of_y(stem: Seq<char>)
    ensures
        stem.len() == 0 || !is_vowel(stem.last()) ==> plural_of(stem.push('y')) == stem + seq![
            'i',
            'e',
            's',
        ],
        stem.len() > 0 && is_vowel(stem.last()) ==> plural_of(stem.push('y')) == stem.push('y')
            + seq!['s'],
{
    let w = stem.push('y');
    assert(w.last() == 'y');
    assert(w.drop_last() =~= stem);
    if stem.len() > 0 {
        assert(w[w.len() - 2] == stem.last());
    }
}

/// Law: a word whose last character is none of `s`, `x`, `y` and that does not
/// end in `ch` or `sh` takes a plain `s`.
pub proof fn law_plural_of_plain(stem: Seq<char>, last: char)
    requires
        last != 's',
        last != 'x',
        last != 'y',
        !(last == 'h' && stem.len() > 0 && (stem.last() == 'c' || stem.last() == 's')),
    ensures
        plural_of(stem.push(last)) == stem.push(last) + seq!['s'],
{
    let w = stem.push(last);
    assert(w.last() == last);
    if stem.len() > 0 {
        assert(w[w.len() - 2] == stem.last());
    }
}

} // verus!
