//! Lines of text as lists of words, and back.

use vstd::prelude::*;
use vstd::string::{StrSliceExecFns, StringExecFns};

verus! {

/// The texts of `strings`, in order.
pub open spec fn string_views(strings: Seq<String>) -> Seq<Seq<char>> {
    Seq::new(strings.len(), |i: int| strings[i]@)
}

/// Whether `c` is white space: the Unicode characters with the property
/// `White_Space`.
pub open spec fn is_space(c: char) -> bool {
    ||| c == '\u{0009}'
    ||| c == '\u{000A}'
    ||| c == '\u{000B}'
    ||| c == '\u{000C}'
    ||| c == '\u{000D}'
    ||| c == '\u{0020}'
    ||| c == '\u{0085}'
    ||| c == '\u{00A0}'
    ||| c == '\u{1680}'
    ||| c == '\u{2000}'
    ||| c == '\u{2001}'
    ||| c == '\u{2002}'
    ||| c == '\u{2003}'
    ||| c == '\u{2004}'
    ||| c == '\u{2005}'
    ||| c == '\u{2006}'
    ||| c == '\u{2007}'
    ||| c == '\u{2008}'
    ||| c == '\u{2009}'
    ||| c == '\u{200A}'
    ||| c == '\u{2028}'
    ||| c == '\u{2029}'
    ||| c == '\u{202F}'
    ||| c == '\u{205F}'
    ||| c == '\u{3000}'
}

/// Whether `c` is white space.
pub fn is_whitespace(c: char) -> (space: bool)
    ensures
        space == is_space(c),
{
    c == '\u{0009}' || c == '\u{000A}' || c == '\u{000B}' || c == '\u{000C}' || c == '\u{000D}'
        || c == '\u{0020}' || c == '\u{0085}' || c == '\u{00A0}' || c == '\u{1680}' || c
        == '\u{2000}' || c == '\u{2001}' || c == '\u{2002}' || c == '\u{2003}' || c == '\u{2004}'
        || c == '\u{2005}' || c == '\u{2006}' || c == '\u{2007}' || c == '\u{2008}' || c
        == '\u{2009}' || c == '\u{200A}' || c == '\u{2028}' || c == '\u{2029}' || c == '\u{202F}'
        || c == '\u{205F}' || c == '\u{3000}'
}

/// Where the word that ends at the end of `text` begins: just past the
/// last white space of `text`, or at 0 if there is none.
pub open spec fn word_start(text: Seq<char>) -> nat
    decreases text.len(),
{
    if text.len() == 0 || is_space(text.last()) {
        text.len()
    } else {
        word_start(text.drop_last())
    }
}

/// The words of `text`: its longest stretches without white space, in order.
pub open spec fn words_of(text: Seq<char>) -> Seq<Seq<char>>
    decreases text.len(),
{
    if text.len() == 0 {
        Seq::empty()
    } else if is_space(text.last()) {
        words_of(text.drop_last())
    } else {
        proof {
            lemma_word_start(text);
        }
        let start = word_start(text) as int;
        words_of(text.take(start)).push(text.skip(start))
    }
}

/// The word at the end of `text` begins inside `text`, holds no white
/// space and has white space, or nothing, in front of it.
pub proof fn lemma_word_start(text: Seq<char>)
    ensures
        word_start(text) <= text.len(),
        forall|i: int| word_start(text) <= i < text.len() ==> !is_space(text[i]),
        word_start(text) > 0 ==> is_space(text[word_start(text) - 1]),
        text.len() > 0 && !is_space(text.last()) ==> word_start(text) < text.len(),
    decreases text.len(),
{
    if text.len() == 0 || is_space(text.last()) {
    } else {
        let init = text.drop_last();
        lemma_word_start(init);
        assert forall|i: int| word_start(text) <= i < text.len() implies !is_space(text[i]) by {
            if i < init.len() {
                assert(init[i] == text[i]);
            }
        }
        if word_start(text) > 0 {
            assert(init[word_start(init) - 1] == text[word_start(text) - 1]);
        }
    }
}

/// Whether `word` holds at least one character and no white space.
pub open spec fn is_word(word: Seq<char>) -> bool {
    word.len() > 0 && forall|i: int| 0 <= i < word.len() ==> !is_space(#[trigger] word[i])
}

/// Every word of a line holds at least one character and no white space.
pub proof fn lemma_words_are_words(text: Seq<char>)
    ensures
        forall|k: int| 0 <= k < words_of(text).len() ==> is_word(#[trigger] words_of(text)[k]),
    decreases text.len(),
{
    if text.len() == 0 {
        assert(words_of(text).len() == 0);
    } else if is_space(text.last()) {
        lemma_words_are_words(text.drop_last());
        assert(words_of(text) == words_of(text.drop_last()));
    } else {
        let start = word_start(text) as int;
        lemma_word_start(text);
        lemma_words_are_words(text.take(start));
        let words = words_of(text);
        assert(words == words_of(text.take(start)).push(text.skip(start)));
        assert forall|k: int| 0 <= k < words.len() implies is_word(#[trigger] words[k]) by {
            if k == words.len() - 1 {
                let word = text.skip(start);
                assert(words[k] == word);
                assert forall|i: int| 0 <= i < word.len() implies !is_space(#[trigger] word[i]) by {
                    assert(word[i] == text[start + i]);
                }
            } else {
                assert(words[k] == words_of(text.take(start))[k]);
            }
        }
    }
}

/// Splits `line` at white space. The words come out in order; white space
/// at either end and between the words is dropped.
pub fn split_whitespace(line: &str) -> (words: Vec<String>)
    ensures
        string_views(words@) == words_of(line@),
{
    // Looks each character up by position, which walks the line anew every
    // time: fine for a line typed at a prompt.
    let n = line.unicode_len();
    let mut words: Vec<String> = Vec::new();
    let mut begin: usize = 0;
    let mut inside = false;
    let mut i: usize = 0;
    assert(line@.take(0) == Seq::<char>::empty());
    assert(string_views(words@) == Seq::<Seq<char>>::empty());
    while i < n
        invariant
            i <= n,
            n == line@.len(),
            begin <= i,
            inside ==> begin < i && word_start(line@.take(i as int)) == begin && !is_space(
                line@[i - 1],
            ) && string_views(words@) == words_of(line@.take(begin as int)),
            !inside ==> string_views(words@) == words_of(line@.take(i as int)) && (i > 0
                ==> is_space(line@[i - 1])),
        decreases n - i,
    {
        let c = line.get_char(i);
        let ghost read = line@.take(i as int);
        let ghost more = line@.take(i + 1);
        let ghost found = string_views(words@);
        proof {
            assert(more.drop_last() == read);
            assert(more.last() == c);
        }
        if is_whitespace(c) {
            if inside {
                let word = line.substring_char(begin, i);
                words.push(String::from_str(word));
                proof {
                    assert(read.last() == line@[i - 1]);
                    assert(read.take(begin as int) == line@.take(begin as int));
                    assert(read.skip(begin as int) == line@.subrange(begin as int, i as int));
                    assert(words_of(read) == words_of(read.take(begin as int)).push(
                        read.skip(begin as int),
                    ));
                    assert(string_views(words@) == found.push(word@));
                }
                inside = false;
            }
        } else {
            if !inside {
                begin = i;
                inside = true;
                proof {
                    if i > 0 {
                        assert(read.last() == line@[i - 1]);
                    }
                    assert(word_start(read) == i);
                    assert(word_start(more) == i);
                }
            }
        }
        i = i + 1;
    }
    proof {
        assert(line@.take(n as int) == line@);
    }
    if inside {
        let ghost found = string_views(words@);
        let word = line.substring_char(begin, n);
        words.push(String::from_str(word));
        proof {
            assert(line@.last() == line@[n - 1]);
            assert(line@.skip(begin as int) == line@.subrange(begin as int, n as int));
            assert(words_of(line@) == words_of(line@.take(begin as int)).push(
                line@.skip(begin as int),
            ));
            assert(string_views(words@) == found.push(word@));
        }
    }
    words
}

/// `parts` in order with one blank between neighbours.
pub open spec fn joined(parts: Seq<Seq<char>>) -> Seq<char>
    decreases parts.len(),
{
    if parts.len() == 0 {
        Seq::empty()
    } else if parts.len() == 1 {
        parts[0]
    } else {
        joined(parts.drop_last()) + seq![' '] + parts.last()
    }
}

/// Puts `parts` together with one blank between neighbours.
pub fn join_strings(parts: &[String]) -> (text: String)
    ensures
        text@ == joined(string_views(parts@)),
{
    let ghost all = string_views(parts@);
    let mut text = String::new();
    let mut i: usize = 0;
    assert(all.take(0) == Seq::<Seq<char>>::empty());
    while i < parts.len()
        invariant
            i <= parts@.len(),
            all == string_views(parts@),
            text@ == joined(all.take(i as int)),
        decreases parts@.len() - i,
    {
        let ghost before = text@;
        proof {
            assert(all.take(i + 1).drop_last() == all.take(i as int));
            assert(all.take(i + 1).last() == parts@[i as int]@);
            reveal_strlit(" ");
        }
        if i > 0 {
            text.append(" ");
            assert(" "@ == seq![' ']);
        }
        text.append(parts[i].as_str());
        i = i + 1;
    }
    assert(all.take(i as int) == all);
    text
}

} // verus!
