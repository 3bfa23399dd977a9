//! The user dictionary and what is done with a transcription: replacements
//! for words that the transcription gets wrong, a count of the terms that
//! were heard, and the request that asks a language model to tidy a text.

use vstd::prelude::*;
use vstd::string::{StringExecFns, StringSliceAdditionalSpecFns};
use vstd::utf8::encode_utf8;
use crate::strings::{text_view, texts};

verus! {

/// The table that a list of distinct keys and a list of values make: each
/// key stands for the value at its own position.
pub open spec fn table<V>(keys: Seq<Seq<char>>, values: Seq<V>) -> Map<Seq<char>, V> {
    Map::new(|k: Seq<char>| keys.contains(k), |k: Seq<char>| values[keys.index_of(k)])
}

/// The count after one more occurrence. It stops at the largest value it can
/// hold.
pub open spec fn counted_once_more(count: u32) -> u32 {
    if count == u32::MAX {
        u32::MAX
    } else {
        (count + 1) as u32
    }
}

/// A key that is not yet there is added to a table together with its value.
pub proof fn lemma_table_push<V>(keys: Seq<Seq<char>>, values: Seq<V>, key: Seq<char>, value: V)
    requires
        keys.len() == values.len(),
        keys.no_duplicates(),
        !keys.contains(key),
    ensures
        keys.push(key).no_duplicates(),
        table(keys.push(key), values.push(value)) == table(keys, values).insert(key, value),
{
    let keys2 = keys.push(key);
    let values2 = values.push(value);
    assert(keys2.no_duplicates()) by {
        assert forall|i: int, j: int|
            0 <= i < keys2.len() && 0 <= j < keys2.len() && i != j implies keys2[i] != keys2[j] by {
            if i < keys.len() && j < keys.len() {
                assert(keys[i] != keys[j]);
            } else if i < keys.len() {
                assert(keys[i] == keys2[i]);
            } else {
                assert(keys[j] == keys2[j]);
            }
        }
    }
    assert forall|k: Seq<char>| keys2.contains(k) <==> (keys.contains(k) || k == key) by {
        if keys.contains(k) {
            let i = keys.index_of(k);
            assert(keys2[i] == k);
        }
        if k == key {
            assert(keys2[keys.len() as int] == k);
        }
        if keys2.contains(k) {
            let i = keys2.index_of(k);
            if i < keys.len() {
                assert(keys[i] == k);
            }
        }
    }
    assert forall|k: Seq<char>| keys2.contains(k) implies #[trigger] values2[keys2.index_of(k)]
        == table(keys, values).insert(key, value)[k] by {
        let i = keys2.index_of(k);
        if k == key {
            if i < keys.len() {
                assert(keys[i] == key);
            }
        } else {
            assert(keys[i] == k);
            let j = keys.index_of(k);
            assert(keys[j] == k);
        }
    }
    assert(table(keys2, values2) =~= table(keys, values).insert(key, value));
}

/// The value of a key that is there is replaced in a table.
pub proof fn lemma_table_update<V>(keys: Seq<Seq<char>>, values: Seq<V>, at: int, value: V)
    requires
        keys.len() == values.len(),
        keys.no_duplicates(),
        0 <= at < keys.len(),
    ensures
        table(keys, values.update(at, value)) == table(keys, values).insert(keys[at], value),
{
    let values2 = values.update(at, value);
    assert(keys.contains(keys[at]));
    assert forall|k: Seq<char>| keys.contains(k) implies #[trigger] values2[keys.index_of(k)]
        == table(keys, values).insert(keys[at], value)[k] by {
        let i = keys.index_of(k);
        assert(keys[i] == k);
    }
    assert(table(keys, values2) =~= table(keys, values).insert(keys[at], value));
}

/// Finds the first position of a text in a list of strings.
pub fn find_text(strings: &Vec<String>, text: &String) -> (found: Option<usize>)
    ensures
        match found {
            Some(i) => {
                &&& i < strings@.len()
                &&& texts(strings@)[i as int] == text@
                &&& forall|j: int| 0 <= j < i ==> texts(strings@)[j] != text@
            },
            None => !texts(strings@).contains(text@),
        },
{
    let mut i: usize = 0;
    while i < strings.len()
        invariant
            i <= strings.len(),
            forall|j: int| 0 <= j < i ==> texts(strings@)[j] != text@,
        decreases strings.len() - i,
    {
        if strings[i] == *text {
            return Some(i);
        }
        i += 1;
    }
    None
}

/// Replacements for words, and how often terms were heard.
#[derive(Debug, Clone)]
pub struct UserDictionary {
    originals: Vec<String>,
    replacements: Vec<String>,
    terms: Vec<String>,
    counts: Vec<u32>,
}

impl UserDictionary {
    /// The words that have a replacement, in the order in which they were
    /// first added.
    pub closed spec fn word_keys(&self) -> Seq<Seq<char>> {
        texts(self.originals@)
    }

    /// The replacements, each at the position of its word.
    pub closed spec fn word_values(&self) -> Seq<Seq<char>> {
        texts(self.replacements@)
    }

    /// The terms that were heard, in the order in which they were first
    /// heard.
    pub closed spec fn term_keys(&self) -> Seq<Seq<char>> {
        texts(self.terms@)
    }

    /// How often each term was heard, each count at the position of its term.
    pub closed spec fn term_counts(&self) -> Seq<u32> {
        self.counts@
    }

    /// The dictionary holds each word and each term once.
    pub open spec fn wf(&self) -> bool {
        &&& self.word_keys().len() == self.word_values().len()
        &&& self.word_keys().no_duplicates()
        &&& self.term_keys().len() == self.term_counts().len()
        &&& self.term_keys().no_duplicates()
    }

    /// The replacement of each word.
    pub open spec fn words(&self) -> Map<Seq<char>, Seq<char>> {
        table(self.word_keys(), self.word_values())
    }

    /// How often each term was heard.
    pub open spec fn frequent_terms(&self) -> Map<Seq<char>, u32> {
        table(self.term_keys(), self.term_counts())
    }

    /// How often a term was heard: 0 for one that never was.
    pub open spec fn frequency(&self, term: Seq<char>) -> u32 {
        if self.frequent_terms().dom().contains(term) {
            self.frequent_terms()[term]
        } else {
            0
        }
    }

    /// An empty dictionary.
    pub fn new() -> (dictionary: UserDictionary)
        ensures
            dictionary.wf(),
            dictionary.word_keys().len() == 0,
            dictionary.term_keys().len() == 0,
            dictionary.words() == Map::<Seq<char>, Seq<char>>::empty(),
            dictionary.frequent_terms() == Map::<Seq<char>, u32>::empty(),
    {
        let dictionary = UserDictionary {
            originals: Vec::new(),
            replacements: Vec::new(),
            terms: Vec::new(),
            counts: Vec::new(),
        };
        assert(dictionary.words() =~= Map::<Seq<char>, Seq<char>>::empty());
        assert(dictionary.frequent_terms() =~= Map::<Seq<char>, u32>::empty());
        dictionary
    }

    /// Gives `original` the replacement `replacement`, in place of the one it
    /// had if it had one. A new word goes to the end of the order.
    pub fn add_word(&mut self, original: String, replacement: String)
        requires
            old(self).wf(),
        ensures
            final(self).wf(),
            final(self).words() == old(self).words().insert(original@, replacement@),
            final(self).word_keys() == if old(self).word_keys().contains(original@) {
                old(self).word_keys()
            } else {
                old(self).word_keys().push(original@)
            },
            final(self).term_keys() == old(self).term_keys(),
            final(self).term_counts() == old(self).term_counts(),
    {
        match find_text(&self.originals, &original) {
            Some(i) => {
                proof {
                    lemma_table_update(self.word_keys(), self.word_values(), i as int, replacement@);
                }
                self.replacements.set(i, replacement);
                assert(self.word_values() =~= old(self).word_values().update(
                    i as int,
                    replacement@,
                ));
            },
            None => {
                proof {
                    lemma_table_push(
                        self.word_keys(),
                        self.word_values(),
                        original@,
                        replacement@,
                    );
                }
                self.originals.push(original);
                self.replacements.push(replacement);
                assert(self.word_keys() =~= old(self).word_keys().push(original@));
                assert(self.word_values() =~= old(self).word_values().push(replacement@));
            },
        }
    }

    /// Counts one more occurrence of `term`. A term that was never heard
    /// before goes to the end of the order with a count of 1.
    pub fn update_frequency(&mut self, term: String)
        requires
            old(self).wf(),
        ensures
            final(self).wf(),
            final(self).frequent_terms() == old(self).frequent_terms().insert(
                term@,
                counted_once_more(old(self).frequency(term@)),
            ),
            final(self).term_keys() == if old(self).term_keys().contains(term@) {
                old(self).term_keys()
            } else {
                old(self).term_keys().push(term@)
            },
            final(self).word_keys() == old(self).word_keys(),
            final(self).word_values() == old(self).word_values(),
    {
        match find_text(&self.terms, &term) {
            Some(i) => {
                let count: u32 = self.counts[i];
                let next: u32 = if count == u32::MAX {
                    u32::MAX
                } else {
                    count + 1
                };
                proof {
                    lemma_table_update(self.term_keys(), self.term_counts(), i as int, next);
                    assert(self.term_keys().contains(term@));
                    let j = self.term_keys().index_of(term@);
                    assert(self.term_keys()[j] == term@);
                }
                self.counts.set(i, next);
            },
            None => {
                proof {
                    lemma_table_push(self.term_keys(), self.term_counts(), term@, 1u32);
                }
                self.terms.push(term);
                self.counts.push(1);
                assert(self.term_keys() =~= old(self).term_keys().push(term@));
            },
        }
    }
}

/// Whether a character has a meaning of its own in a regular expression.
pub open spec fn is_meta_character(c: char) -> bool {
    c == '\\' || c == '.' || c == '+' || c == '*' || c == '?' || c == '(' || c == ')' || c == '|'
        || c == '[' || c == ']' || c == '{' || c == '}' || c == '^' || c == '$' || c == '#' || c
        == '&' || c == '-' || c == '~'
}

/// A character as it stands in a regular expression that matches it
/// literally: with a backslash before it if it has a meaning of its own.
pub open spec fn escaped_character(c: char) -> Seq<char> {
    if is_meta_character(c) {
        seq!['\\', c]
    } else {
        seq![c]
    }
}

/// A text as it stands in a regular expression that matches it literally.
pub open spec fn escaped(text: Seq<char>) -> Seq<char> {
    text.flat_map(|c: char| escaped_character(c))
}

/// The regular expression that finds a word where it stands alone: between
/// the ends of the text, white space or Japanese punctuation.
pub open spec fn word_pattern(original: Seq<char>) -> Seq<char> {
    "(^|\\s|、|。|「|」)"@ + escaped(original) + "($|\\s|、|。|「|」)"@
}

/// The replacement text that keeps what stood before and after the word.
pub open spec fn word_replacement(replacement: Seq<char>) -> Seq<char> {
    "$1"@ + replacement + "$2"@
}

/// Whether `pattern` is accepted as a regular expression.
pub uninterp spec fn regex_accepts(pattern: Seq<char>) -> bool;

/// The text in which every match of the regular expression `pattern` is
/// replaced as `replacement` says.
pub uninterp spec fn regex_replaced(
    pattern: Seq<char>,
    text: Seq<char>,
    replacement: Seq<char>,
) -> Seq<char>;

/// The text in which every occurrence of `from` is replaced by `to`.
pub uninterp spec fn plainly_replaced(text: Seq<char>, from: Seq<char>, to: Seq<char>) -> Seq<
    char,
>;

/// The text without the white space at its start and at its end.
pub uninterp spec fn trimmed_text(text: Seq<char>) -> Seq<char>;

/// The pieces of a text that white space separates, in order.
pub uninterp spec fn whitespace_words(text: Seq<char>) -> Seq<Seq<char>>;

/// The text after one word of the dictionary was replaced in it: by the
/// word's pattern, or plainly where the pattern is refused.
pub open spec fn word_replaced(text: Seq<char>, original: Seq<char>, replacement: Seq<char>)
    -> Seq<char> {
    if regex_accepts(word_pattern(original)) {
        regex_replaced(word_pattern(original), text, word_replacement(replacement))
    } else {
        plainly_replaced(text, original, replacement)
    }
}

/// The text after the words at `keys` were replaced in it one after the
/// other, each by the value at its position.
pub open spec fn applied(keys: Seq<Seq<char>>, values: Seq<Seq<char>>, text: Seq<char>) -> Seq<
    char,
>
    decreases keys.len(),
{
    if keys.len() == 0 {
        text
    } else {
        word_replaced(
            applied(keys.drop_last(), values.drop_last(), text),
            keys.last(),
            values.last(),
        )
    }
}

/// Whether a text holds nothing but white space.
pub open spec fn is_blank(text: Seq<char>) -> bool {
    trimmed_text(text).len() == 0
}

/// Whether a piece of text is counted as a term: it takes more than one byte
/// in UTF-8.
pub open spec fn is_term(word: Seq<char>) -> bool {
    encode_utf8(word).len() > 1
}

/// Calls `regex::escape`, which puts a backslash before each character that
/// has a meaning of its own in a regular expression and leaves the others as
/// they are.
#[verifier::external_body]
fn escape(text: &str) -> (out: String)
    ensures
        out@ == escaped(text@),
{
    regex::escape(text)
}

/// Calls `regex::Regex::new` and, with the expression it yields,
/// `Regex::replace_all`. The result is nothing exactly where the pattern is
/// refused, and else the text that `replace_all` returns. Whether a pattern
/// is refused depends on the pattern alone, and what `replace_all` returns
/// on the pattern and the two texts.
#[verifier::external_body]
fn regex_replace_all(pattern: &str, text: &str, replacement: &str) -> (out: Option<String>)
    ensures
        out is Some <==> regex_accepts(pattern@),
        out matches Some(replaced) ==> replaced@ == regex_replaced(
            pattern@,
            text@,
            replacement@,
        ),
{
    match regex::Regex::new(pattern) {
        Ok(re) => Some(re.replace_all(text, replacement).into_owned()),
        Err(_) => None,
    }
}

/// Calls `str::replace`, which replaces every match of a text by another.
#[verifier::external_body]
fn plain_replace(text: &str, from: &str, to: &str) -> (out: String)
    ensures
        out@ == plainly_replaced(text@, from@, to@),
{
    text.replace(from, to)
}

/// Calls `str::trim`, which removes the white space at both ends.
#[verifier::external_body]
fn trim(text: &str) -> (out: &str)
    ensures
        out@ == trimmed_text(text@),
{
    text.trim()
}

/// Calls `str::split_whitespace` and collects the pieces it yields.
#[verifier::external_body]
fn split_whitespace(text: &str) -> (out: Vec<String>)
    ensures
        texts(out@) == whitespace_words(text@),
{
    text.split_whitespace().map(|word| word.to_string()).collect()
}

/// Builds the regular expression that finds `original` where it stands
/// alone.
pub fn word_pattern_for(original: &str) -> (pattern: String)
    ensures
        pattern@ == word_pattern(original@),
{
    let mut pattern: String = String::from_str("(^|\\s|、|。|「|」)");
    let literal: String = escape(original);
    pattern.append(literal.as_str());
    pattern.append("($|\\s|、|。|「|」)");
    pattern
}

/// Builds the replacement text that keeps what stood before and after the
/// word.
pub fn word_replacement_for(replacement: &str) -> (text: String)
    ensures
        text@ == word_replacement(replacement@),
{
    let mut text: String = String::from_str("$1");
    text.append(replacement);
    text.append("$2");
    text
}

/// Replaces one word of the dictionary in a text.
pub fn replace_word(text: &str, original: &str, replacement: &str) -> (out: String)
    ensures
        out@ == word_replaced(text@, original@, replacement@),
{
    let pattern: String = word_pattern_for(original);
    let by: String = word_replacement_for(replacement);
    match regex_replace_all(pattern.as_str(), text, by.as_str()) {
        Some(replaced) => replaced,
        None => plain_replace(text, original, replacement),
    }
}

/// Tells whether a text holds nothing but white space.
pub fn blank(text: &str) -> (b: bool)
    ensures
        b == is_blank(text@),
{
    trim(text).is_empty()
}

impl UserDictionary {
    /// Whether the dictionary holds no replacement.
    pub fn is_empty(&self) -> (empty: bool)
        ensures
            empty == (self.word_keys().len() == 0),
    {
        self.originals.len() == 0
    }

    /// The number of words that have a replacement.
    pub fn len(&self) -> (n: usize)
        ensures
            n == self.word_keys().len(),
    {
        self.originals.len()
    }

    /// The word at a position of the order, with its replacement.
    pub fn word_at(&self, index: usize) -> (entry: (&String, &String))
        requires
            self.wf(),
            index < self.word_keys().len(),
        ensures
            entry.0@ == self.word_keys()[index as int],
            entry.1@ == self.word_values()[index as int],
    {
        (&self.originals[index], &self.replacements[index])
    }

    /// The number of terms that were heard.
    pub fn term_count(&self) -> (n: usize)
        ensures
            n == self.term_keys().len(),
    {
        self.terms.len()
    }

    /// The term at a position of the order, with its count.
    pub fn term_at(&self, index: usize) -> (entry: (&String, u32))
        requires
            self.wf(),
            index < self.term_keys().len(),
        ensures
            entry.0@ == self.term_keys()[index as int],
            entry.1 == self.term_counts()[index as int],
    {
        (&self.terms[index], self.counts[index])
    }

    /// Sets how often `term` was heard, as when a stored dictionary is read
    /// back.
    pub fn set_frequency(&mut self, term: String, count: u32)
        requires
            old(self).wf(),
        ensures
            final(self).wf(),
            final(self).frequent_terms() == old(self).frequent_terms().insert(term@, count),
            final(self).term_keys() == if old(self).term_keys().contains(term@) {
                old(self).term_keys()
            } else {
                old(self).term_keys().push(term@)
            },
            final(self).word_keys() == old(self).word_keys(),
            final(self).word_values() == old(self).word_values(),
    {
        match find_text(&self.terms, &term) {
            Some(i) => {
                proof {
                    lemma_table_update(self.term_keys(), self.term_counts(), i as int, count);
                }
                self.counts.set(i, count);
            },
            None => {
                proof {
                    lemma_table_push(self.term_keys(), self.term_counts(), term@, count);
                }
                self.terms.push(term);
                self.counts.push(count);
                assert(self.term_keys() =~= old(self).term_keys().push(term@));
            },
        }
    }

    /// Replaces the words of the dictionary in a text, one after the other in
    /// the order of the dictionary. An empty dictionary leaves the text as it
    /// is.
    pub fn apply_dictionary(&self, text: &str) -> (out: String)
        requires
            self.wf(),
        ensures
            out@ == applied(self.word_keys(), self.word_values(), text@),
    {
        let mut out: String = String::from_str(text);
        let mut i: usize = 0;
        while i < self.originals.len()
            invariant
                self.wf(),
                i <= self.originals@.len(),
                self.originals@.len() == self.word_keys().len(),
                out@ == applied(
                    self.word_keys().take(i as int),
                    self.word_values().take(i as int),
                    text@,
                ),
            decreases self.originals.len() - i,
        {
            proof {
                let keys = self.word_keys().take(i + 1);
                let values = self.word_values().take(i + 1);
                assert(keys.drop_last() =~= self.word_keys().take(i as int));
                assert(values.drop_last() =~= self.word_values().take(i as int));
                assert(keys.last() == self.originals@[i as int]@);
                assert(values.last() == self.replacements@[i as int]@);
            }
            out = replace_word(out.as_str(), self.originals[i].as_str(), self.replacements[i].as_str());
            i += 1;
        }
        proof {
            assert(self.word_keys().take(i as int) =~= self.word_keys());
            assert(self.word_values().take(i as int) =~= self.word_values());
        }
        out
    }
}

/// The instruction that asks for one replacement.
pub open spec fn replacement_line(original: Seq<char>, replacement: Seq<char>) -> Seq<char> {
    "- Replace \""@ + original + "\" with \""@ + replacement + "\"\n"@
}

/// The instructions that ask for the replacements at `keys`, one line each,
/// in order.
pub open spec fn replacement_lines(keys: Seq<Seq<char>>, values: Seq<Seq<char>>) -> Seq<char>
    decreases keys.len(),
{
    if keys.len() == 0 {
        Seq::empty()
    } else {
        replacement_lines(keys.drop_last(), values.drop_last()) + replacement_line(
            keys.last(),
            values.last(),
        )
    }
}

/// What the request says of the dictionary: nothing if it is empty, else a
/// heading, one line for each replacement, and a closing remark.
pub open spec fn dictionary_instructions(keys: Seq<Seq<char>>, values: Seq<Seq<char>>) -> Seq<
    char,
> {
    if keys.len() == 0 {
        Seq::empty()
    } else {
        "When the following words or expressions appear, make sure to modify them exactly as specified:\n"@
            + replacement_lines(keys, values)
            + "\nEnsure to apply these word replacements exactly as specified while maintaining the word usage context.\n\n"@
    }
}

/// The request that asks to tidy `input`, with the dictionary's replacements
/// written into it.
pub open spec fn prompt_text(keys: Seq<Seq<char>>, values: Seq<Seq<char>>, input: Seq<char>)
    -> Seq<char> {
    "Enhance this transcribed text while preserving the original language:\n- Keep the text in its original language - do not translate\n- Remove excessive filler words (like えー, あの) only if they are overly frequent\n- Preserve casual speech patterns and tone\n- Keep the original writing style and expressions\n- Add line breaks and paragraph separations only where necessary\n- Add bullet points or lists where contextually appropriate\n"@
        + dictionary_instructions(keys, values) + "Input text: "@ + input
}

/// The counts after each of `words` that is a term was counted once more, in
/// order.
pub open spec fn learned(
    keys: Seq<Seq<char>>,
    counts: Seq<u32>,
    words: Seq<Seq<char>>,
) -> Map<Seq<char>, u32>
    decreases words.len(),
{
    if words.len() == 0 {
        table(keys, counts)
    } else {
        let before = learned(keys, counts, words.drop_last());
        if is_term(words.last()) {
            before.insert(
                words.last(),
                counted_once_more(
                    if before.dom().contains(words.last()) {
                        before[words.last()]
                    } else {
                        0
                    },
                ),
            )
        } else {
            before
        }
    }
}

/// What the language model answered, as far as it is read.
#[derive(Debug, Clone)]
pub struct ChatReply {
    /// Present if the answer reports an error; inside it the error's
    /// message, if it has one that is a text.
    pub error: Option<Option<String>>,
    /// The content of the first choice's message, if there is one that is a
    /// text.
    pub content: Option<String>,
}

/// What a reply comes to: the tidied text, or the message of the error.
pub open spec fn reply_outcome(reply: ChatReply) -> Result<Seq<char>, Seq<char>> {
    match reply.error {
        Some(Some(message)) => Err("API エラー: "@ + message@),
        Some(None) => Err("API エラー: "@ + "Unknown error"@),
        None => match reply.content {
            Some(content) => Ok(content@),
            None => Ok(Seq::empty()),
        },
    }
}

/// The view of a result of texts.
pub open spec fn outcome_view(outcome: Result<String, String>) -> Result<Seq<char>, Seq<char>> {
    match outcome {
        Ok(text) => Ok(text@),
        Err(message) => Err(message@),
    }
}

/// Reads a reply: an answer that reports an error fails with the error's
/// message, any other yields the content of its first choice, which is empty
/// if there is none.
pub fn interpret_reply(reply: &ChatReply) -> (outcome: Result<String, String>)
    ensures
        outcome_view(outcome) == reply_outcome(*reply),
{
    match &reply.error {
        Some(error) => {
            let mut message: String = String::from_str("API エラー: ");
            match error {
                Some(text) => message.append(text.as_str()),
                None => message.append("Unknown error"),
            }
            Err(message)
        },
        None => match &reply.content {
            Some(content) => Ok(content.clone()),
            None => Ok(String::new()),
        },
    }
}

/// Works on transcriptions with the user dictionary at hand.
#[derive(Debug, Clone)]
pub struct TranscriptionProcessor {
    dictionary: UserDictionary,
}

impl TranscriptionProcessor {
    /// The dictionary that the processor works with.
    pub closed spec fn dictionary_spec(&self) -> UserDictionary {
        self.dictionary
    }

    /// The processor's dictionary holds each word and each term once.
    pub open spec fn wf(&self) -> bool {
        self.dictionary_spec().wf()
    }

    /// A processor that works with `dictionary`.
    pub fn new(dictionary: UserDictionary) -> (processor: TranscriptionProcessor)
        requires
            dictionary.wf(),
        ensures
            processor.wf(),
            processor.dictionary_spec() == dictionary,
    {
        TranscriptionProcessor { dictionary }
    }

    /// The dictionary that the processor works with.
    pub fn dictionary(&self) -> (dictionary: &UserDictionary)
        ensures
            *dictionary == self.dictionary_spec(),
    {
        &self.dictionary
    }

    /// Gives a word a replacement in the dictionary.
    pub fn add_custom_word(&mut self, original: String, replacement: String)
        requires
            old(self).wf(),
        ensures
            final(self).wf(),
            final(self).dictionary_spec().words() == old(self).dictionary_spec().words().insert(
                original@,
                replacement@,
            ),
            final(self).dictionary_spec().frequent_terms() == old(
                self,
            ).dictionary_spec().frequent_terms(),
    {
        self.dictionary.add_word(original, replacement);
    }

    /// Counts the terms among `words`, in order: each word that takes more
    /// than one byte.
    pub fn learn_words(&mut self, words: &Vec<String>)
        requires
            old(self).wf(),
        ensures
            final(self).wf(),
            final(self).dictionary_spec().frequent_terms() == learned(
                old(self).dictionary_spec().term_keys(),
                old(self).dictionary_spec().term_counts(),
                texts(words@),
            ),
            final(self).dictionary_spec().word_keys() == old(self).dictionary_spec().word_keys(),
            final(self).dictionary_spec().word_values() == old(
                self,
            ).dictionary_spec().word_values(),
    {
        let mut i: usize = 0;
        while i < words.len()
            invariant
                i <= words.len(),
                self.wf(),
                self.dictionary_spec().frequent_terms() == learned(
                    old(self).dictionary_spec().term_keys(),
                    old(self).dictionary_spec().term_counts(),
                    texts(words@).take(i as int),
                ),
                self.dictionary_spec().word_keys() == old(self).dictionary_spec().word_keys(),
                self.dictionary_spec().word_values() == old(self).dictionary_spec().word_values(),
            decreases words.len() - i,
        {
            proof {
                let seen = texts(words@).take(i + 1);
                assert(seen.drop_last() =~= texts(words@).take(i as int));
                assert(seen.last() == words@[i as int]@);
            }
            if words[i].as_str().as_bytes().len() > 1 {
                self.dictionary.update_frequency(words[i].clone());
            }
            i += 1;
        }
        proof {
            assert(texts(words@).take(i as int) =~= texts(words@));
        }
    }

    /// Counts the terms of a text: each piece between white space that takes
    /// more than one byte.
    pub fn learn_from_text(&mut self, text: &str)
        requires
            old(self).wf(),
        ensures
            final(self).wf(),
            final(self).dictionary_spec().frequent_terms() == learned(
                old(self).dictionary_spec().term_keys(),
                old(self).dictionary_spec().term_counts(),
                whitespace_words(text@),
            ),
            final(self).dictionary_spec().word_keys() == old(self).dictionary_spec().word_keys(),
            final(self).dictionary_spec().word_values() == old(
                self,
            ).dictionary_spec().word_values(),
    {
        let words: Vec<String> = split_whitespace(text);
        self.learn_words(&words);
    }

    /// Writes the request that asks to tidy `input_text`, with the
    /// dictionary's replacements in it, or nothing if the text is blank.
    pub fn format_with_dictionary_embedded(&self, input_text: &str) -> (prompt: Option<String>)
        requires
            self.wf(),
        ensures
            text_view(prompt) == if is_blank(input_text@) {
                None
            } else {
                Some(
                    prompt_text(
                        self.dictionary_spec().word_keys(),
                        self.dictionary_spec().word_values(),
                        input_text@,
                    ),
                )
            },
    {
        if blank(input_text) {
            return None;
        }
        let mut prompt: String = String::from_str(
            "Enhance this transcribed text while preserving the original language:\n- Keep the text in its original language - do not translate\n- Remove excessive filler words (like えー, あの) only if they are overly frequent\n- Preserve casual speech patterns and tone\n- Keep the original writing style and expressions\n- Add line breaks and paragraph separations only where necessary\n- Add bullet points or lists where contextually appropriate\n",
        );
        let n: usize = self.dictionary.len();
        if n > 0 {
            prompt.append(
                "When the following words or expressions appear, make sure to modify them exactly as specified:\n",
            );
            let ghost head = prompt@;
            let ghost keys = self.dictionary_spec().word_keys();
            let ghost values = self.dictionary_spec().word_values();
            let mut i: usize = 0;
            while i < n
                invariant
                    self.wf(),
                    i <= n,
                    n == keys.len(),
                    keys == self.dictionary_spec().word_keys(),
                    values == self.dictionary_spec().word_values(),
                    prompt@ == head + replacement_lines(keys.take(i as int), values.take(i as int)),
                decreases n - i,
            {
                proof {
                    assert(keys.take(i + 1).drop_last() =~= keys.take(i as int));
                    assert(values.take(i + 1).drop_last() =~= values.take(i as int));
                }
                let (original, replacement) = self.dictionary.word_at(i);
                prompt.append("- Replace \"");
                prompt.append(original.as_str());
                prompt.append("\" with \"");
                prompt.append(replacement.as_str());
                prompt.append("\"\n");
                assert(prompt@ =~= head + replacement_lines(keys.take(i + 1), values.take(i + 1)));
                i += 1;
            }
            proof {
                assert(keys.take(i as int) =~= keys);
                assert(values.take(i as int) =~= values);
            }
            prompt.append(
                "\nEnsure to apply these word replacements exactly as specified while maintaining the word usage context.\n\n",
            );
        }
        prompt.append("Input text: ");
        prompt.append(input_text);
        assert(prompt@ =~= prompt_text(
            self.dictionary_spec().word_keys(),
            self.dictionary_spec().word_values(),
            input_text@,
        ));
        Some(prompt)
    }

    /// Finishes the work on a transcription once the language model has
    /// answered. A blank transcription yields an empty text whatever the
    /// answer. Otherwise the answer decides: an error is handed on and
    /// nothing is learned; a text is returned and the terms of the
    /// transcription are counted.
    pub fn process_transcription(&mut self, raw_text: &str, reply: &ChatReply) -> (outcome: Result<
        String,
        String,
    >)
        requires
            old(self).wf(),
        ensures
            final(self).wf(),
            final(self).dictionary_spec().word_keys() == old(self).dictionary_spec().word_keys(),
            final(self).dictionary_spec().word_values() == old(
                self,
            ).dictionary_spec().word_values(),
            outcome_view(outcome) == if is_blank(raw_text@) {
                Ok(Seq::empty())
            } else {
                reply_outcome(*reply)
            },
            final(self).dictionary_spec().frequent_terms() == if !is_blank(raw_text@)
                && reply_outcome(*reply) is Ok {
                learned(
                    old(self).dictionary_spec().term_keys(),
                    old(self).dictionary_spec().term_counts(),
                    whitespace_words(raw_text@),
                )
            } else {
                old(self).dictionary_spec().frequent_terms()
            },
    {
        if blank(raw_text) {
            return Ok(String::new());
        }
        match interpret_reply(reply) {
            Ok(formatted) => {
                self.learn_from_text(raw_text);
                Ok(formatted)
            },
            Err(message) => Err(message),
        }
    }
}

} // verus!
