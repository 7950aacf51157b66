//! Turning recognized words and lines into the text of an OCR result.
use vstd::prelude::*;

use crate::ocr_cleanup::{cleaned_ocr_text, cleanup_ocr_artifacts};
use crate::text::{chars_of, concat_chars, string_from_chars, trim, trim_chars};

verus! {

/// The text a recognized word contributes: the trimmed word cleaned of OCR artifacts; nothing
/// when the word is blank or nothing is left after cleaning.
pub open spec fn word_text(raw: Seq<char>) -> Option<Seq<char>> {
    if trim(raw).len() == 0 {
        None
    } else if cleaned_ocr_text(trim(raw)).len() == 0 {
        None
    } else {
        Some(cleaned_ocr_text(trim(raw)))
    }
}

/// The cleaned text of a recognized word, or `None` when the word contributes nothing.
pub fn ocr_word_text(raw: &str) -> (text: Option<String>)
    ensures
        match word_text(raw@) {
            Some(t) => text matches Some(s) && s@ == t,
            None => text is None,
        },
{
    let trimmed = trim_chars(&chars_of(raw));
    if trimmed.len() == 0 {
        return None;
    }
    let trimmed_text = string_from_chars(&trimmed);
    let cleaned = cleanup_ocr_artifacts(trimmed_text.as_str());
    if chars_of(cleaned.as_str()).len() == 0 {
        None
    } else {
        Some(cleaned)
    }
}

/// Each word followed by one space.
pub open spec fn spaced_words(words: Seq<Seq<char>>) -> Seq<char>
    decreases words.len(),
{
    if words.len() == 0 {
        Seq::empty()
    } else {
        spaced_words(words.drop_last()) + words.last() + " "@
    }
}

/// The views of the strings in `v`.
pub open spec fn string_views(v: Seq<String>) -> Seq<Seq<char>> {
    v.map_values(|s: String| s@)
}

/// The full text of recognized words: the words separated by spaces, trimmed.
pub fn assemble_word_text(words: &Vec<String>) -> (text: String)
    ensures
        text@ == trim(spaced_words(string_views(words@))),
{
    let mut acc: Vec<char> = Vec::new();
    let space = chars_of(" ");
    for i in 0..words.len()
        invariant
            space@ == " "@,
            acc@ == spaced_words(string_views(words@.take(i as int))),
    {
        acc = concat_chars(&concat_chars(&acc, &chars_of(words[i].as_str())), &space);
        proof {
            let ws = string_views(words@.take(i + 1));
            assert(ws.drop_last() =~= string_views(words@.take(i as int)));
            assert(ws.last() == words@[i as int]@);
        }
    }
    proof {
        assert(words@.take(words.len() as int) =~= words@);
    }
    string_from_chars(&trim_chars(&acc))
}

/// Each recognized line that holds visible characters, followed by a line break.
pub open spec fn broken_lines(lines: Seq<Option<Seq<char>>>) -> Seq<char>
    decreases lines.len(),
{
    if lines.len() == 0 {
        Seq::empty()
    } else {
        broken_lines(lines.drop_last()) + match lines.last() {
            Some(t) => if trim(t).len() > 0 {
                t + "\n"@
            } else {
                Seq::empty()
            },
            None => Seq::empty(),
        }
    }
}

/// The views of the optional strings in `v`.
pub open spec fn optional_string_views(v: Seq<Option<String>>) -> Seq<Option<Seq<char>>> {
    v.map_values(
        |s: Option<String>|
            match s {
                Some(t) => Some(t@),
                None => None,
            },
    )
}

/// The full text of recognized lines: every line with visible characters, each followed by a
/// line break; lines that were not recognized are left out.
pub fn assemble_line_text(lines: &Vec<Option<String>>) -> (text: String)
    ensures
        text@ == broken_lines(optional_string_views(lines@)),
{
    let mut acc: Vec<char> = Vec::new();
    let newline = chars_of("\n");
    for i in 0..lines.len()
        invariant
            newline@ == "\n"@,
            acc@ == broken_lines(optional_string_views(lines@.take(i as int))),
    {
        let ghost before = acc@;
        match &lines[i] {
            Some(line) => {
                let line_chars = chars_of(line.as_str());
                if trim_chars(&line_chars).len() > 0 {
                    acc = concat_chars(&concat_chars(&acc, &line_chars), &newline);
                }
            },
            None => {},
        }
        proof {
            let ls = optional_string_views(lines@.take(i + 1));
            assert(ls.drop_last() =~= optional_string_views(lines@.take(i as int)));
            assert(ls.last() == match lines@[i as int] {
                Some(t) => Some(t@),
                None => None,
            });
            match lines@[i as int] {
                Some(t) => {},
                None => {
                    assert(acc@ =~= before + Seq::<char>::empty());
                },
            }
        }
    }
    proof {
        assert(lines@.take(lines.len() as int) =~= lines@);
    }
    string_from_chars(&acc)
}

} // verus!
