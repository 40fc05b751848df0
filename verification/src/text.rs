//! Whitespace and the splitting of a line into words.

use std::collections::VecDeque;
use vstd::prelude::*;

verus! {

/// Whether `c` is one of the Unicode white space characters.
pub open spec fn is_whitespace(c: char) -> bool {
    let u = c as u32;
    ||| 0x09 <= u <= 0x0D
    ||| u == 0x20
    ||| u == 0x85
    ||| u == 0xA0
    ||| u == 0x1680
    ||| 0x2000 <= u <= 0x200A
    ||| u == 0x2028
    ||| u == 0x2029
    ||| u == 0x202F
    ||| u == 0x205F
    ||| u == 0x3000
}

/// A word is a non-empty run of characters that are not white space.
pub open spec fn is_word(s: Seq<char>) -> bool {
    &&& s.len() > 0
    &&& forall|i: int| 0 <= i < s.len() ==> !is_whitespace(#[trigger] s[i])
}

/// Whether every character of `s` is white space; true of the empty text.
pub open spec fn is_blank(s: Seq<char>) -> bool {
    forall|i: int| 0 <= i < s.len() ==> is_whitespace(#[trigger] s[i])
}

/// The sequence holding `word`, or no word at all when `word` is empty.
pub open spec fn flush(word: Seq<char>) -> Seq<Seq<char>> {
    if word.len() == 0 {
        seq![]
    } else {
        seq![word]
    }
}

/// The words of `word` followed by `rest`, where `word` is a run that has
/// been read already and ends where `rest` begins.
pub open spec fn words_after(word: Seq<char>, rest: Seq<char>) -> Seq<Seq<char>>
    decreases rest.len(),
{
    if rest.len() == 0 {
        flush(word)
    } else if is_whitespace(rest[0]) {
        flush(word) + words_after(seq![], rest.skip(1))
    } else {
        words_after(word.push(rest[0]), rest.skip(1))
    }
}

/// The words of `s`: its maximal runs of characters that are not white space,
/// in the order in which they occur.
pub open spec fn words(s: Seq<char>) -> Seq<Seq<char>> {
    words_after(seq![], s)
}

/// Whether `c` is white space.
pub fn char_is_whitespace(c: char) -> (b: bool)
    ensures
        b == is_whitespace(c),
{
    let u: u32 = c as u32;
    (0x09 <= u && u <= 0x0D) || u == 0x20 || u == 0x85 || u == 0xA0 || u == 0x1680 || (0x2000 <= u
        && u <= 0x200A) || u == 0x2028 || u == 0x2029 || u == 0x202F || u == 0x205F || u == 0x3000
}

/// The texts of a sequence of strings.
pub open spec fn texts(v: Seq<String>) -> Seq<Seq<char>> {
    Seq::new(v.len(), |k: int| v[k]@)
}

/// Splits `line` into its words.
pub fn split_words(line: &str) -> (out: VecDeque<String>)
    ensures
        texts(out@) == words(line@),
{
    let n = line.unicode_len();
    let mut out: VecDeque<String> = VecDeque::new();
    let mut start: usize = 0;
    let mut i: usize = 0;
    proof {
        assert(line@.subrange(0, 0) =~= Seq::<char>::empty());
        assert(line@.skip(0) =~= line@);
        assert(texts(out@) =~= Seq::<Seq<char>>::empty());
    }
    for c in it: line.chars()
        invariant
            i == it.index(),
            it.seq() == line@,
            n == line@.len(),
            start <= i <= n,
            words(line@) == texts(out@) + words_after(
                line@.subrange(start as int, i as int),
                line@.skip(i as int),
            ),
    {
        proof {
            assert(line@.skip(i as int)[0] == c);
            assert(line@.skip(i as int).skip(1) =~= line@.skip(i + 1));
        }
        if char_is_whitespace(c) {
            if start < i {
                let w = line.substring_char(start, i);
                let ghost before = texts(out@);
                out.push_back(w.to_owned());
                proof {
                    assert(texts(out@) =~= before + seq![w@]);
                }
            }
            start = i + 1;
            proof {
                assert(line@.subrange(start as int, i + 1) =~= Seq::<char>::empty());
            }
        } else {
            proof {
                assert(line@.subrange(start as int, i + 1) =~= line@.subrange(
                    start as int,
                    i as int,
                ).push(c));
            }
        }
        i = i + 1;
    }
    if start < i {
        let w = line.substring_char(start, i);
        let ghost before = texts(out@);
        out.push_back(w.to_owned());
        proof {
            assert(texts(out@) =~= before + seq![w@]);
        }
    }
    out
}

/// Whether `line` holds nothing but white space.
pub fn text_is_blank(line: &str) -> (b: bool)
    ensures
        b == is_blank(line@),
{
    for c in it: line.chars()
        invariant
            it.seq() == line@,
            forall|i: int| 0 <= i < it.index() ==> is_whitespace(#[trigger] line@[i]),
    {
        if !char_is_whitespace(c) {
            return false;
        }
    }
    true
}

/// Whether no character of `s` is white space; true of the empty text.
spec fn is_solid(s: Seq<char>) -> bool {
    forall|i: int| 0 <= i < s.len() ==> !is_whitespace(#[trigger] s[i])
}

/// A run without white space only lengthens the word that is being read.
proof fn lemma_words_after_run(word: Seq<char>, run: Seq<char>, rest: Seq<char>)
    requires
        is_solid(run),
    ensures
        words_after(word, run + rest) == words_after(word + run, rest),
    decreases run.len(),
{
    if run.len() == 0 {
        assert(run + rest =~= rest);
        assert(word + run =~= word);
    } else {
        let whole = run + rest;
        assert(whole[0] == run[0]);
        assert(whole.skip(1) =~= run.skip(1) + rest);
        lemma_words_after_run(word.push(run[0]), run.skip(1), rest);
        assert(word.push(run[0]) + run.skip(1) =~= word + run);
    }
}

/// A white space character ends the word that is being read.
proof fn lemma_words_after_space(word: Seq<char>, space: char, rest: Seq<char>)
    requires
        is_whitespace(space),
    ensures
        words_after(word, seq![space] + rest) == flush(word) + words_after(seq![], rest),
{
    let whole = seq![space] + rest;
    assert(whole[0] == space);
    assert(whole.skip(1) =~= rest);
}

/// Every word that splitting yields is a word: not empty, and without white space.
proof fn lemma_words_after_are_words(word: Seq<char>, rest: Seq<char>, i: int)
    requires
        is_solid(word),
        0 <= i < words_after(word, rest).len(),
    ensures
        is_word(words_after(word, rest)[i]),
    decreases rest.len(),
{
    if rest.len() == 0 {
    } else if is_whitespace(rest[0]) {
        if i >= flush(word).len() {
            lemma_words_after_are_words(seq![], rest.skip(1), i - flush(word).len());
        }
    } else {
        lemma_words_after_are_words(word.push(rest[0]), rest.skip(1), i);
    }
}

/// Every word of a line is a word: not empty, and without white space.
pub proof fn lemma_words_are_words(line: Seq<char>, i: int)
    requires
        0 <= i < words(line).len(),
    ensures
        is_word(words(line)[i]),
{
    lemma_words_after_are_words(seq![], line, i);
}

/// White space at the front of a line makes no difference to its words.
pub proof fn lemma_words_skip_space(space: char, rest: Seq<char>)
    requires
        is_whitespace(space),
    ensures
        words(seq![space] + rest) == words(rest),
{
    lemma_words_after_space(seq![], space, rest);
    assert(flush(Seq::<char>::empty()) + words(rest) =~= words(rest));
}

/// A line that begins with a word and white space after it has that word as
/// its first, and then the words of what follows.
pub proof fn lemma_words_first(word: Seq<char>, space: char, rest: Seq<char>)
    requires
        is_word(word),
        is_whitespace(space),
    ensures
        words(word + seq![space] + rest) == seq![word] + words(rest),
{
    assert(word + seq![space] + rest =~= word + (seq![space] + rest));
    lemma_words_after_run(seq![], word, seq![space] + rest);
    assert(Seq::<char>::empty() + word =~= word);
    lemma_words_after_space(word, space, rest);
}

/// A line that is one word has that word as its only one.
pub proof fn lemma_words_last(word: Seq<char>)
    requires
        is_word(word),
    ensures
        words(word) == seq![word],
{
    assert(word + Seq::<char>::empty() =~= word);
    lemma_words_after_run(seq![], word, Seq::<char>::empty());
    assert(Seq::<char>::empty() + word =~= word);
}

/// A line of nothing but white space has no words.
pub proof fn lemma_words_of_blank(line: Seq<char>)
    requires
        is_blank(line),
    ensures
        words(line) == Seq::<Seq<char>>::empty(),
    decreases line.len(),
{
    if line.len() > 0 {
        assert(line =~= seq![line[0]] + line.skip(1));
        lemma_words_skip_space(line[0], line.skip(1));
        lemma_words_of_blank(line.skip(1));
    }
}

/// Three words joined by single spaces split into those three words.
pub proof fn lemma_words_of_three(a: Seq<char>, b: Seq<char>, c: Seq<char>)
    requires
        is_word(a),
        is_word(b),
        is_word(c),
    ensures
        words(a + seq![' '] + b + seq![' '] + c) == seq![a, b, c],
{
    assert(a + seq![' '] + b + seq![' '] + c =~= a + seq![' '] + (b + seq![' '] + c));
    lemma_words_first(a, ' ', b + seq![' '] + c);
    lemma_words_first(b, ' ', c);
    lemma_words_last(c);
    assert(seq![a] + (seq![b] + seq![c]) =~= seq![a, b, c]);
}

} // verus!
