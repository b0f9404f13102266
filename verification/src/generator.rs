//! The password generator: random characters from the selected character
//! classes, or a passphrase of words drawn from a word list.

use vstd::prelude::*;

use crate::crypto::random_below;
use crate::text::{chars_of, push_char, string_from_chars};

verus! {

/// Which kind of secret the generator produces.
#[derive(Clone, Copy, Debug, PartialEq, Eq, Structural)]
pub enum GeneratorMode {
    RandomChars,
    Passphrase,
}

/// Settings of the generator. `length` applies to random characters;
/// `word_count`, `separator` and `capitalize` to passphrases; the four class
/// flags select the characters of random passwords.
#[derive(Clone, Copy, Debug, PartialEq, Eq, Structural)]
pub struct GeneratorConfig {
    pub mode: GeneratorMode,
    pub length: usize,
    pub word_count: usize,
    pub separator: char,
    pub capitalize: bool,
    pub uppercase: bool,
    pub lowercase: bool,
    pub numbers: bool,
    pub symbols: bool,
}

/// The factory settings: five capitalized words joined by `_`, or sixteen
/// letters in random-character mode.
pub open spec fn default_generator_config() -> GeneratorConfig {
    GeneratorConfig {
        mode: GeneratorMode::Passphrase,
        length: 16,
        word_count: 5,
        separator: '_',
        capitalize: true,
        uppercase: true,
        lowercase: true,
        numbers: false,
        symbols: false,
    }
}

impl Default for GeneratorConfig {
    fn default() -> (res: Self)
        ensures
            res == default_generator_config(),
    {
        GeneratorConfig {
            mode: GeneratorMode::Passphrase,
            length: 16,
            word_count: 5,
            uppercase: true,
            lowercase: true,
            numbers: false,
            symbols: false,
            capitalize: true,
            separator: '_',
        }
    }
}

impl GeneratorMode {
    /// The mode at position `index` of the mode menu: 0 is random
    /// characters, anything else a passphrase.
    pub fn from_index(index: usize) -> (res: Self)
        ensures
            res == (if index == 0 {
                GeneratorMode::RandomChars
            } else {
                GeneratorMode::Passphrase
            }),
    {
        match index {
            0 => GeneratorMode::RandomChars,
            _ => GeneratorMode::Passphrase,
        }
    }
}

/// Lowercase letters.
pub open spec fn lowercase_chars() -> Seq<char> {
    "abcdefghijklmnopqrstuvwxyz"@
}

/// Uppercase letters.
pub open spec fn uppercase_chars() -> Seq<char> {
    "ABCDEFGHIJKLMNOPQRSTUVWXYZ"@
}

/// Decimal digits.
pub open spec fn digit_chars() -> Seq<char> {
    "0123456789"@
}

/// Symbols.
pub open spec fn symbol_chars() -> Seq<char> {
    "!@#$%^&*()_+-=[]{}|;:,.<>?"@
}

/// The characters a random password draws from: the selected classes, in the
/// order lowercase, uppercase, digits, symbols.
pub open spec fn charset(config: GeneratorConfig) -> Seq<char> {
    (if config.lowercase {
        lowercase_chars()
    } else {
        Seq::empty()
    }) + (if config.uppercase {
        uppercase_chars()
    } else {
        Seq::empty()
    }) + (if config.numbers {
        digit_chars()
    } else {
        Seq::empty()
    }) + (if config.symbols {
        symbol_chars()
    } else {
        Seq::empty()
    })
}

/// At least one character class is selected.
pub open spec fn any_class(config: GeneratorConfig) -> bool {
    config.lowercase || config.uppercase || config.numbers || config.symbols
}

/// The uppercase form of `c` (`char::to_uppercase`), as text.
pub uninterp spec fn uppercase_text(c: char) -> Seq<char>;

/// `word` with its first character in uppercase.
pub open spec fn capitalized(word: Seq<char>) -> Seq<char> {
    if word.len() == 0 {
        word
    } else {
        uppercase_text(word[0]) + word.drop_first()
    }
}

/// The words joined with `sep` between consecutive ones.
pub open spec fn joined(words: Seq<Seq<char>>, sep: char) -> Seq<char>
    decreases words.len(),
{
    if words.len() == 0 {
        Seq::empty()
    } else if words.len() == 1 {
        words[0]
    } else {
        joined(words.drop_last(), sep).push(sep) + words.last()
    }
}

/// The passphrase made of the words of `list` at `indices`, capitalized when
/// asked, joined with `sep`.
pub open spec fn passphrase(list: Seq<String>, indices: Seq<usize>, capitalize: bool, sep: char) -> Seq<char> {
    joined(
        indices.map_values(
            |i: usize|
                if capitalize {
                    capitalized(list[i as int]@)
                } else {
                    list[i as int]@
                },
        ),
        sep,
    )
}

/// Message when random characters are asked for with no class selected.
pub open spec fn no_charset_message() -> Seq<char> {
    "No charset selected!"@
}

/// Message when a passphrase of no words is asked for.
pub open spec fn no_words_message() -> Seq<char> {
    "A contagem de palavras deve ser maior que zero."@
}

/// Whether `c` is Unicode white space (`char::is_whitespace`).
pub uninterp spec fn unicode_whitespace(c: char) -> bool;

/// `char::is_whitespace`. The result is a function of `c`; among ASCII
/// characters exactly tab, line feed, vertical tab, form feed, carriage
/// return and space are white space.
#[verifier::external_body]
pub(crate) fn is_whitespace(c: char) -> (res: bool)
    ensures
        res == unicode_whitespace(c),
        (c as u32) < 128 ==> (res <==> (9 <= (c as u32) <= 13 || c == ' ')),
{
    c.is_whitespace()
}

/// The text split at line feeds: one segment per line, the last one possibly
/// empty.
pub open spec fn segments(text: Seq<char>) -> Seq<Seq<char>>
    decreases text.len(),
{
    if text.len() == 0 {
        seq![Seq::empty()]
    } else {
        let segs = segments(text.drop_last());
        if text.last() == '\n' {
            segs.push(Seq::empty())
        } else {
            segs.update(segs.len() - 1, segs.last().push(text.last()))
        }
    }
}

/// The run of non-white-space characters at the end of `line`.
pub open spec fn token_suffix(line: Seq<char>) -> Seq<char>
    decreases line.len(),
{
    if line.len() == 0 || unicode_whitespace(line.last()) {
        Seq::empty()
    } else {
        token_suffix(line.drop_last()).push(line.last())
    }
}

/// The last white-space-separated token of `line`, if it has one.
pub open spec fn last_token(line: Seq<char>) -> Option<Seq<char>>
    decreases line.len(),
{
    if line.len() == 0 {
        None
    } else if unicode_whitespace(line.last()) {
        last_token(line.drop_last())
    } else {
        Some(token_suffix(line))
    }
}

/// The last token of each line that has one, in order.
pub open spec fn collect_words(lines: Seq<Seq<char>>) -> Seq<Seq<char>>
    decreases lines.len(),
{
    if lines.len() == 0 {
        Seq::empty()
    } else {
        let rest = collect_words(lines.drop_last());
        match last_token(lines.last()) {
            Some(w) => rest.push(w),
            None => rest,
        }
    }
}

/// The words of a word-list text: the last token of every line. In the EFF
/// format (`11111<TAB>abacus`) that is the word after the dice number.
pub open spec fn words_of(text: Seq<char>) -> Seq<Seq<char>> {
    collect_words(segments(text))
}

/// The texts of a list of strings.
pub open spec fn texts(v: Seq<String>) -> Seq<Seq<char>> {
    v.map_values(|w: String| w@)
}

proof fn lemma_segments_nonempty(text: Seq<char>)
    ensures
        segments(text).len() >= 1,
    decreases text.len(),
{
    if text.len() > 0 {
        lemma_segments_nonempty(text.drop_last());
    }
}

/// Parses a word-list text into its words (see `words_of`).
pub fn parse_wordlist(raw: &str) -> (res: Vec<String>)
    ensures
        texts(res@) == words_of(raw@),
{
    let chars = chars_of(raw);
    let mut words: Vec<String> = Vec::new();
    let mut cur: Vec<char> = Vec::new();
    let mut line_last: Option<Vec<char>> = None;
    let mut i: usize = 0;
    proof {
        assert(chars@.subrange(0, 0) =~= Seq::<char>::empty());
    }
    while i < chars.len()
        invariant
            i <= chars.len(),
            chars@ == raw@,
            segments(chars@.subrange(0, i as int)).len() >= 1,
            texts(words@) == collect_words(segments(chars@.subrange(0, i as int)).drop_last()),
            cur@ == token_suffix(segments(chars@.subrange(0, i as int)).last()),
            match line_last {
                Some(w) => last_token(segments(chars@.subrange(0, i as int)).last()) == Some(w@),
                None => last_token(segments(chars@.subrange(0, i as int)).last()) is None,
            },
        decreases chars.len() - i,
    {
        let c = chars[i];
        let ghost prefix = chars@.subrange(0, i as int);
        let ghost next = chars@.subrange(0, i as int + 1);
        let ghost segs = segments(prefix);
        proof {
            assert(next.drop_last() =~= prefix);
            assert(next.last() == c);
            lemma_segments_nonempty(prefix);
        }
        if c == '\n' {
            let ghost before = words@;
            match line_last {
                Some(w) => {
                    words.push(string_from_chars(&w));
                },
                None => {},
            }
            proof {
                assert(segments(next) == segs.push(Seq::empty()));
                assert(segments(next).drop_last() =~= segs);
                assert(texts(words@) =~= collect_words(segs));
            }
            cur = Vec::new();
            line_last = None;
            proof {
                assert(cur@ =~= Seq::<char>::empty());
            }
        } else if is_whitespace(c) {
            proof {
                let segs2 = segments(next);
                assert(segs2 == segs.update(segs.len() - 1, segs.last().push(c)));
                assert(segs2.drop_last() =~= segs.drop_last());
                assert(segs2.last() == segs.last().push(c));
                assert(segs.last().push(c).drop_last() =~= segs.last());
            }
            cur = Vec::new();
            proof {
                assert(cur@ =~= Seq::<char>::empty());
            }
        } else {
            proof {
                let segs2 = segments(next);
                assert(segs2 == segs.update(segs.len() - 1, segs.last().push(c)));
                assert(segs2.drop_last() =~= segs.drop_last());
                assert(segs2.last() == segs.last().push(c));
                assert(segs.last().push(c).drop_last() =~= segs.last());
            }
            cur.push(c);
            line_last = Some(clone_chars(&cur));
        }
        i = i + 1;
    }
    proof {
        assert(chars@.subrange(0, i as int) =~= raw@);
        lemma_segments_nonempty(raw@);
    }
    let ghost segs = segments(raw@);
    let ghost before = words@;
    match line_last {
        Some(w) => {
            words.push(string_from_chars(&w));
        },
        None => {},
    }
    proof {
        assert(texts(words@) =~= collect_words(segs));
    }
    words
}

/// A copy of a character vector.
fn clone_chars(v: &Vec<char>) -> (res: Vec<char>)
    ensures
        res@ == v@,
{
    let mut res: Vec<char> = Vec::new();
    let mut k: usize = 0;
    while k < v.len()
        invariant
            k <= v.len(),
            res@ == v@.subrange(0, k as int),
        decreases v.len() - k,
    {
        res.push(v[k]);
        k = k + 1;
        assert(res@ =~= v@.subrange(0, k as int));
    }
    assert(res@ =~= v@);
    res
}

/// `char::to_uppercase` of `c`, collected into a string. The result is a
/// function of `c`; for ASCII letters it is the one uppercase letter and for
/// other ASCII characters `c` itself.
#[verifier::external_body]
pub(crate) fn uppercase_of(c: char) -> (res: String)
    ensures
        res@ == uppercase_text(c),
        'a' <= c <= 'z' ==> res@ == seq![((c as u32) - 32) as char],
        (c as u32) < 128 && !('a' <= c <= 'z') ==> res@ == seq![c],
{
    c.to_uppercase().to_string()
}

/// The characters of the selected classes.
fn build_charset(config: &GeneratorConfig) -> (res: Vec<char>)
    ensures
        res@ == charset(*config),
        forall|c: char| res@.contains(c) <==> in_selected_class(*config, c),
{
    let mut chars = String::new();
    if config.lowercase {
        chars.append("abcdefghijklmnopqrstuvwxyz");
    }
    if config.uppercase {
        chars.append("ABCDEFGHIJKLMNOPQRSTUVWXYZ");
    }
    if config.numbers {
        chars.append("0123456789");
    }
    if config.symbols {
        chars.append("!@#$%^&*()_+-=[]{}|;:,.<>?");
    }
    assert(chars@ =~= charset(*config));
    assert forall|c: char| charset(*config).contains(c) <==> in_selected_class(*config, c) by {
        law_charset_is_selected_classes(*config, c);
    }
    chars_of(chars.as_str())
}

/// The character set is empty exactly when no class is selected.
pub proof fn lemma_charset_empty(config: GeneratorConfig)
    ensures
        charset(config).len() == 0 <==> !any_class(config),
{
    reveal_strlit("abcdefghijklmnopqrstuvwxyz");
    reveal_strlit("ABCDEFGHIJKLMNOPQRSTUVWXYZ");
    reveal_strlit("0123456789");
    reveal_strlit("!@#$%^&*()_+-=[]{}|;:,.<>?");
}

/// The password made of `charset[indices[0]]`, `charset[indices[1]]`, ...
pub fn pick_chars(charset: &Vec<char>, indices: &Vec<usize>) -> (res: String)
    requires
        forall|k: int| 0 <= k < indices.len() ==> indices[k] < charset.len(),
    ensures
        res@.len() == indices.len(),
        forall|k: int| 0 <= k < indices.len() ==> res@[k] == charset@[#[trigger] indices[k] as int],
{
    let mut res = String::new();
    let mut k: usize = 0;
    while k < indices.len()
        invariant
            k <= indices.len(),
            forall|j: int| 0 <= j < indices.len() ==> indices[j] < charset.len(),
            res@.len() == k,
            forall|j: int| 0 <= j < k ==> res@[j] == charset@[#[trigger] indices[j] as int],
        decreases indices.len() - k,
    {
        push_char(&mut res, charset[indices[k]]);
        k = k + 1;
    }
    res
}

/// `count` random indices below `bound`.
fn random_indices(count: usize, bound: usize) -> (res: Vec<usize>)
    requires
        bound > 0,
    ensures
        res.len() == count,
        forall|k: int| 0 <= k < count ==> #[trigger] res[k] < bound,
{
    let mut res: Vec<usize> = Vec::new();
    let mut k: usize = 0;
    while k < count
        invariant
            bound > 0,
            k <= count,
            res.len() == k,
            forall|j: int| 0 <= j < k ==> #[trigger] res[j] < bound,
        decreases count - k,
    {
        res.push(random_below(bound));
        k = k + 1;
    }
    res
}

/// A random password of `config.length` characters drawn uniformly from the
/// selected classes; an error when no class is selected.
pub fn generate_random_chars(config: &GeneratorConfig) -> (res: Result<String, &'static str>)
    ensures
        res is Err <==> !any_class(*config),
        res matches Err(m) ==> m@ == no_charset_message(),
        res matches Ok(p) ==> p@.len() == config.length && forall|k: int|
            0 <= k < p@.len() ==> charset(*config).contains(#[trigger] p@[k]),
        res matches Ok(p) ==> forall|k: int| 0 <= k < p@.len() ==> in_selected_class(*config, #[trigger] p@[k]),
{
    let charset_chars = build_charset(config);
    proof {
        lemma_charset_empty(*config);
    }
    if charset_chars.len() == 0 {
        return Err("No charset selected!");
    }
    let indices = random_indices(config.length, charset_chars.len());
    let password = pick_chars(&charset_chars, &indices);
    assert forall|k: int| 0 <= k < password@.len() implies charset(*config).contains(
        #[trigger] password@[k],
    ) by {
        assert(password@[k] == charset_chars@[indices[k] as int]);
    }
    assert forall|k: int| 0 <= k < password@.len() implies in_selected_class(*config, #[trigger] password@[k]) by {
        assert(password@[k] == charset_chars@[indices[k] as int]);
        assert(charset_chars@.contains(password@[k]));
    }
    Ok(password)
}

/// `word` with its first character in uppercase.
pub fn capitalize_word(word: &String) -> (res: String)
    ensures
        res@ == capitalized(word@),
{
    let chars = chars_of(word.as_str());
    if chars.len() == 0 {
        return word.clone();
    }
    let mut res = uppercase_of(chars[0]);
    let ghost head = res@;
    let mut k: usize = 1;
    while k < chars.len()
        invariant
            1 <= k <= chars.len(),
            chars@ == word@,
            res@ == head + chars@.subrange(1, k as int),
        decreases chars.len() - k,
    {
        push_char(&mut res, chars[k]);
        k = k + 1;
        assert(res@ =~= head + chars@.subrange(1, k as int));
    }
    assert(chars@.subrange(1, chars.len() as int) =~= word@.drop_first());
    res
}

/// The passphrase made of the words of `wordlist` at `indices`, each
/// capitalized when `capitalize` holds, with `separator` between them.
pub fn assemble_passphrase(wordlist: &Vec<String>, indices: &Vec<usize>, capitalize: bool, separator: char) -> (res:
    String)
    requires
        forall|k: int| 0 <= k < indices.len() ==> #[trigger] indices[k] < wordlist.len(),
    ensures
        res@ == passphrase(wordlist@, indices@, capitalize, separator),
{
    let ghost words = indices@.map_values(
        |i: usize|
            if capitalize {
                capitalized(wordlist@[i as int]@)
            } else {
                wordlist@[i as int]@
            },
    );
    let mut res = String::new();
    let mut k: usize = 0;
    while k < indices.len()
        invariant
            k <= indices.len(),
            forall|j: int| 0 <= j < indices.len() ==> #[trigger] indices[j] < wordlist.len(),
            words == indices@.map_values(
                |i: usize|
                    if capitalize {
                        capitalized(wordlist@[i as int]@)
                    } else {
                        wordlist@[i as int]@
                    },
            ),
            res@ == joined(words.subrange(0, k as int), separator),
        decreases indices.len() - k,
    {
        let word = if capitalize {
            capitalize_word(&wordlist[indices[k]])
        } else {
            wordlist[indices[k]].clone()
        };
        assert(word@ == words[k as int]);
        let ghost prev = res@;
        if k > 0 {
            push_char(&mut res, separator);
        }
        res.append(word.as_str());
        proof {
            let next = words.subrange(0, k as int + 1);
            assert(next.drop_last() =~= words.subrange(0, k as int));
            if k == 0 {
                assert(res@ =~= next[0]);
            } else {
                assert(res@ =~= joined(next.drop_last(), separator).push(separator) + next.last());
            }
        }
        k = k + 1;
    }
    assert(words.subrange(0, indices.len() as int) =~= words);
    res
}

/// A passphrase of `config.word_count` words drawn uniformly from
/// `wordlist`; an error when no words are asked for.
pub fn generate_passphrase(config: &GeneratorConfig, wordlist: &Vec<String>) -> (res: Result<
    String,
    &'static str,
>)
    requires
        config.word_count > 0 ==> wordlist.len() > 0,
    ensures
        res is Err <==> config.word_count == 0,
        res matches Err(m) ==> m@ == no_words_message(),
        res matches Ok(p) ==> exists|indices: Seq<usize>|
            indices.len() == config.word_count && (forall|k: int|
                0 <= k < indices.len() ==> #[trigger] indices[k] < wordlist.len()) && p@
                == #[trigger] passphrase(wordlist@, indices, config.capitalize, config.separator),
{
    if config.word_count == 0 {
        return Err("A contagem de palavras deve ser maior que zero.");
    }
    let indices = random_indices(config.word_count, wordlist.len());
    let phrase = assemble_passphrase(wordlist, &indices, config.capitalize, config.separator);
    assert(phrase@ == passphrase(wordlist@, indices@, config.capitalize, config.separator));
    Ok(phrase)
}

/// The generator can run with the settings `c` and the words `words`:
/// passphrases need words.
pub open spec fn can_generate(c: GeneratorConfig, words: Seq<String>) -> bool {
    !(c.mode == GeneratorMode::Passphrase && c.word_count > 0 && words.len() == 0)
}

/// `p` is a secret that the generator may produce with the settings `c` and
/// the words `words`.
pub open spec fn is_generated(c: GeneratorConfig, words: Seq<String>, p: Seq<char>) -> bool {
    match c.mode {
        GeneratorMode::RandomChars => p.len() == c.length && forall|k: int|
            0 <= k < p.len() ==> charset(c).contains(#[trigger] p[k]),
        GeneratorMode::Passphrase => exists|indices: Seq<usize>|
            indices.len() == c.word_count && (forall|k: int|
                0 <= k < indices.len() ==> #[trigger] indices[k] < words.len()) && p == #[trigger] passphrase(
                words,
                indices,
                c.capitalize,
                c.separator,
            ),
    }
}

/// The message of a failed generation with the settings `config`.
pub open spec fn generation_error(config: GeneratorConfig) -> Seq<char> {
    match config.mode {
        GeneratorMode::RandomChars => no_charset_message(),
        GeneratorMode::Passphrase => no_words_message(),
    }
}

/// A secret of the kind `config.mode` selects.
pub fn generate(config: GeneratorConfig, wordlist: &Vec<String>) -> (res: Result<String, &'static str>)
    requires
        config.mode == GeneratorMode::Passphrase && config.word_count > 0 ==> wordlist.len() > 0,
    ensures
        config.mode == GeneratorMode::RandomChars ==> (res is Err <==> !any_class(config)),
        config.mode == GeneratorMode::Passphrase ==> (res is Err <==> config.word_count == 0),
        config.mode == GeneratorMode::RandomChars ==> (res matches Ok(p) ==> p@.len() == config.length
            && forall|k: int| 0 <= k < p@.len() ==> charset(config).contains(#[trigger] p@[k])),
        config.mode == GeneratorMode::RandomChars ==> (res matches Ok(p) ==> forall|k: int|
            0 <= k < p@.len() ==> in_selected_class(config, #[trigger] p@[k])),
        config.mode == GeneratorMode::Passphrase ==> (res matches Ok(p) ==> exists|indices: Seq<usize>|
            indices.len() == config.word_count && (forall|k: int|
                0 <= k < indices.len() ==> #[trigger] indices[k] < wordlist.len()) && p@
                == #[trigger] passphrase(wordlist@, indices, config.capitalize, config.separator)),
        res matches Err(m) ==> m@ == generation_error(config),
        res matches Ok(p) ==> is_generated(config, wordlist@, p@),
{
    match config.mode {
        GeneratorMode::RandomChars => generate_random_chars(&config),
        GeneratorMode::Passphrase => generate_passphrase(&config, wordlist),
    }
}

} // verus!

verus! {

/// `c` belongs to a class that `config` selects: a lowercase letter a-z, an
/// uppercase letter A-Z, a decimal digit 0-9, or one of the symbols.
pub open spec fn in_selected_class(config: GeneratorConfig, c: char) -> bool {
    ||| config.lowercase && 'a' <= c <= 'z'
    ||| config.uppercase && 'A' <= c <= 'Z'
    ||| config.numbers && '0' <= c <= '9'
    ||| config.symbols && "!@#$%^&*()_+-=[]{}|;:,.<>?"@.contains(c)
}

proof fn lemma_lowercase_range(c: char)
    ensures
        lowercase_chars().contains(c) <==> 'a' <= c <= 'z',
{
    reveal_strlit("abcdefghijklmnopqrstuvwxyz");
    if 'a' <= c <= 'z' {
        let k = (c as u32 - 'a' as u32) as int;
        assert(lowercase_chars()[k] == c);
    }
}

proof fn lemma_uppercase_range(c: char)
    ensures
        uppercase_chars().contains(c) <==> 'A' <= c <= 'Z',
{
    reveal_strlit("ABCDEFGHIJKLMNOPQRSTUVWXYZ");
    if 'A' <= c <= 'Z' {
        let k = (c as u32 - 'A' as u32) as int;
        assert(uppercase_chars()[k] == c);
    }
}

proof fn lemma_digit_range(c: char)
    ensures
        digit_chars().contains(c) <==> '0' <= c <= '9',
{
    reveal_strlit("0123456789");
    if '0' <= c <= '9' {
        let k = (c as u32 - '0' as u32) as int;
        assert(digit_chars()[k] == c);
    }
}

/// The characters a random password draws from are exactly those of the
/// selected classes: with uppercase selected every letter A-Z is among them,
/// and with only uppercase selected nothing else is.
pub proof fn law_charset_is_selected_classes(config: GeneratorConfig, c: char)
    ensures
        charset(config).contains(c) <==> in_selected_class(config, c),
{
    lemma_lowercase_range(c);
    lemma_uppercase_range(c);
    lemma_digit_range(c);
    let l = if config.lowercase { lowercase_chars() } else { Seq::empty() };
    let u = if config.uppercase { uppercase_chars() } else { Seq::empty() };
    let d = if config.numbers { digit_chars() } else { Seq::empty() };
    let s = if config.symbols { symbol_chars() } else { Seq::empty() };
    assert(charset(config) == l + u + d + s);
    let lu = l + u;
    let lud = lu + d;
    if charset(config).contains(c) {
        let k = choose|k: int| 0 <= k < charset(config).len() && charset(config)[k] == c;
        if k < l.len() {
            assert(l[k] == c);
        } else if k < lu.len() {
            assert(u[k - l.len()] == c);
        } else if k < lud.len() {
            assert(d[k - lu.len()] == c);
        } else {
            assert(s[k - lud.len()] == c);
        }
    }
    if in_selected_class(config, c) {
        if config.lowercase && 'a' <= c <= 'z' {
            let k = choose|k: int| 0 <= k < l.len() && l[k] == c;
            assert(charset(config)[k] == c);
        } else if config.uppercase && 'A' <= c <= 'Z' {
            let k = choose|k: int| 0 <= k < u.len() && u[k] == c;
            assert(charset(config)[l.len() + k] == c);
        } else if config.numbers && '0' <= c <= '9' {
            let k = choose|k: int| 0 <= k < d.len() && d[k] == c;
            assert(charset(config)[lu.len() + k] == c);
        } else {
            let k = choose|k: int| 0 <= k < s.len() && s[k] == c;
            assert(charset(config)[lud.len() + k] == c);
        }
    }
}

} // verus!
