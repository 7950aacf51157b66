//! Clean-up of common OCR misreadings: a fixed table of textual replacements applied in
//! order, followed by whitespace trimming.
use vstd::prelude::*;

use crate::text::{chars_of, replace_all, replace_all_chars, string_from_chars, trim, trim_chars};

verus! {

/// The replacement table: each pattern, in order, is replaced by its substitute.
pub open spec fn ocr_replacement_table() -> Seq<(&'static str, &'static str)> {
    seq![
        ("¬Æ", ""),
        ("¬©", ""),
        ("(|)", ""),
        ("¬¢", "•"),
        ("¬∑", "•"),
        ("¬∏", "•"),
        ("-¬†", "—"),
        ("¬†", " "),
        ("¬´", "'"),
        ("¬ª", "'"),
        ("¬∫", "'"),
        ("¬º", "'"),
        ("¬´¬´", "\""),
        ("¬ª¬ª", "\""),
        ("¬´¬ª", "\""),
        ("``", "\""),
        ("''", "\""),
        ("~", "−"),
        ("(t/\\)", "(↑/↓)"),
        ("t/\\", "↑/↓"),
        ("<->", "↔"),
        ("->", "→"),
        ("<-", "←"),
        ("<=>", "⇔"),
        ("=>", "⇒"),
        ("<=", "⇐"),
        (">>", "»"),
        ("<<", "«"),
        ("...", "…"),
        ("(c)", "©"),
        ("(C)", "©"),
        ("(r)", "®"),
        ("(R)", "®"),
        ("(tm)", "™"),
        ("(TM)", "™"),
        ("+-", "±"),
        ("+/-", "±"),
        ("!=", "≠"),
        ("/=", "≠"),
        ("<=", "≤"),
        (">=", "≥"),
        ("~=", "≈"),
        ("~~", "≈"),
        ("inf", "∞"),
        ("deg", "°"),
        ("1/2", "½"),
        ("1/4", "¼"),
        ("3/4", "¾"),
        ("1/3", "⅓"),
        ("2/3", "⅔"),
        ("sqrt", "√"),
        ("cbrt", "∛"),
        ("sum", "∑"),
        ("prod", "∏"),
        ("delta", "Δ"),
        ("alpha", "α"),
        ("beta", "β"),
        ("gamma", "γ"),
        ("theta", "θ"),
        ("lambda", "λ"),
        ("mu", "μ"),
        ("pi", "π"),
        ("sigma", "σ"),
        ("omega", "ω"),
        ("x^2", "x²"),
        ("^2", "²"),
        ("^3", "³"),
        ("^n", "ⁿ"),
        ("EUR", "€"),
        ("GBP", "£"),
        ("JPY", "¥"),
        ("CNY", "¥"),
        ("[x]", "☑"),
        ("[ ]", "☐"),
        ("[X]", "☑"),
        ("[v]", "✓"),
        ("[V]", "✓"),
        ("(*)", "★"),
        ("[*]", "★"),
        ("<3", "♥"),
        (":)", "☺"),
        (":(", "☹"),
        ("|>", "▶"),
        ("<|", "◀"),
        ("||", "⏸"),
        ("[>", "▶"),
        ("#S", "⌘S"),
        ("#C", "⌘C"),
        ("#D", "⌘D"),
        ("#V", "⌘V"),
        ("#Z", "⌘Z"),
        ("#X", "⌘X"),
        ("#A", "⌘A"),
        ("#F", "⌘F"),
        ("#W", "⌘W"),
        ("#Q", "⌘Q"),
        ("#N", "⌘N"),
        ("#O", "⌘O"),
        ("#P", "⌘P"),
        ("#T", "⌘T"),
        ("#R", "⌘R"),
        ("#B", "⌘B"),
        ("#I", "⌘I"),
        ("#U", "⌘U"),
        ("#K", "⌘K"),
        ("#L", "⌘L"),
        ("#G", "⌘G"),
        ("#H", "⌘H"),
        ("#M", "⌘M"),
        ("#E", "⌘E"),
        ("#J", "⌘J"),
        ("Ctrl+", "⌃"),
        ("Alt+", "⌥"),
        ("Shift+", "⇧"),
        ("Cmd+", "⌘"),
        ("Tab", "⇥"),
        ("Enter", "↵"),
        ("Return", "↵"),
        ("Esc", "⎋"),
        ("Del", "⌫"),
        ("Backspace", "⌫"),
        ("Caps", "⇪"),
    ]
}

/// Applies the replacements of `table` to `s`, first entry first.
pub open spec fn apply_replacements(s: Seq<char>, table: Seq<(&'static str, &'static str)>) -> Seq<
    char,
>
    decreases table.len(),
{
    if table.len() == 0 {
        s
    } else {
        replace_all(apply_replacements(s, table.drop_last()), table.last().0@, table.last().1@)
    }
}

/// The cleaned-up form of an OCR word: every table entry applied in order, then trimmed.
pub open spec fn cleaned_ocr_text(text: Seq<char>) -> Seq<char> {
    trim(apply_replacements(text, ocr_replacement_table()))
}

/// The keyboard key names and the key symbols they are written as: the modifier prefixes
/// Ctrl+ ⌃, Alt+ ⌥, Shift+ ⇧ and Cmd+ ⌘, and the keys Tab ⇥, Enter and Return ↵, Esc ⎋,
/// Del and Backspace ⌫, Caps ⇪.
pub open spec fn key_symbol_entries() -> Seq<(&'static str, &'static str)> {
    seq![
        ("Ctrl+", "⌃"),
        ("Alt+", "⌥"),
        ("Shift+", "⇧"),
        ("Cmd+", "⌘"),
        ("Tab", "⇥"),
        ("Enter", "↵"),
        ("Return", "↵"),
        ("Esc", "⎋"),
        ("Del", "⌫"),
        ("Backspace", "⌫"),
        ("Caps", "⇪"),
    ]
}

/// The table ends with the keyboard key names, each written as its key symbol, after every
/// other replacement; the two names of the same key (Enter and Return, Del and Backspace)
/// become the same symbol.
pub proof fn law_key_names_become_key_symbols()
    ensures
        ocr_replacement_table().len() == 122,
        ocr_replacement_table().subrange(111, 122) == key_symbol_entries(),
        ocr_replacement_table()[117] == ("Return", "↵"),
        ocr_replacement_table()[116].1 == ocr_replacement_table()[117].1,
        ocr_replacement_table()[119].1 == ocr_replacement_table()[120].1,
{
    assert(ocr_replacement_table().subrange(111, 122) =~= key_symbol_entries());
}

/// The replacement table as a vector of (pattern, substitute) pairs.
pub fn get_ocr_replacements() -> (r: Vec<(&'static str, &'static str)>)
    ensures
        r@ == ocr_replacement_table(),
        r@.len() == 122,
        r@.subrange(111, 122) == key_symbol_entries(),
{
    proof {
        law_key_names_become_key_symbols();
    }
    vec![
        ("¬Æ", ""),
        ("¬©", ""),
        ("(|)", ""),
        ("¬¢", "•"),
        ("¬∑", "•"),
        ("¬∏", "•"),
        ("-¬†", "—"),
        ("¬†", " "),
        ("¬´", "'"),
        ("¬ª", "'"),
        ("¬∫", "'"),
        ("¬º", "'"),
        ("¬´¬´", "\""),
        ("¬ª¬ª", "\""),
        ("¬´¬ª", "\""),
        ("``", "\""),
        ("''", "\""),
        ("~", "−"),
        ("(t/\\)", "(↑/↓)"),
        ("t/\\", "↑/↓"),
        ("<->", "↔"),
        ("->", "→"),
        ("<-", "←"),
        ("<=>", "⇔"),
        ("=>", "⇒"),
        ("<=", "⇐"),
        (">>", "»"),
        ("<<", "«"),
        ("...", "…"),
        ("(c)", "©"),
        ("(C)", "©"),
        ("(r)", "®"),
        ("(R)", "®"),
        ("(tm)", "™"),
        ("(TM)", "™"),
        ("+-", "±"),
        ("+/-", "±"),
        ("!=", "≠"),
        ("/=", "≠"),
        ("<=", "≤"),
        (">=", "≥"),
        ("~=", "≈"),
        ("~~", "≈"),
        ("inf", "∞"),
        ("deg", "°"),
        ("1/2", "½"),
        ("1/4", "¼"),
        ("3/4", "¾"),
        ("1/3", "⅓"),
        ("2/3", "⅔"),
        ("sqrt", "√"),
        ("cbrt", "∛"),
        ("sum", "∑"),
        ("prod", "∏"),
        ("delta", "Δ"),
        ("alpha", "α"),
        ("beta", "β"),
        ("gamma", "γ"),
        ("theta", "θ"),
        ("lambda", "λ"),
        ("mu", "μ"),
        ("pi", "π"),
        ("sigma", "σ"),
        ("omega", "ω"),
        ("x^2", "x²"),
        ("^2", "²"),
        ("^3", "³"),
        ("^n", "ⁿ"),
        ("EUR", "€"),
        ("GBP", "£"),
        ("JPY", "¥"),
        ("CNY", "¥"),
        ("[x]", "☑"),
        ("[ ]", "☐"),
        ("[X]", "☑"),
        ("[v]", "✓"),
        ("[V]", "✓"),
        ("(*)", "★"),
        ("[*]", "★"),
        ("<3", "♥"),
        (":)", "☺"),
        (":(", "☹"),
        ("|>", "▶"),
        ("<|", "◀"),
        ("||", "⏸"),
        ("[>", "▶"),
        ("#S", "⌘S"),
        ("#C", "⌘C"),
        ("#D", "⌘D"),
        ("#V", "⌘V"),
        ("#Z", "⌘Z"),
        ("#X", "⌘X"),
        ("#A", "⌘A"),
        ("#F", "⌘F"),
        ("#W", "⌘W"),
        ("#Q", "⌘Q"),
        ("#N", "⌘N"),
        ("#O", "⌘O"),
        ("#P", "⌘P"),
        ("#T", "⌘T"),
        ("#R", "⌘R"),
        ("#B", "⌘B"),
        ("#I", "⌘I"),
        ("#U", "⌘U"),
        ("#K", "⌘K"),
        ("#L", "⌘L"),
        ("#G", "⌘G"),
        ("#H", "⌘H"),
        ("#M", "⌘M"),
        ("#E", "⌘E"),
        ("#J", "⌘J"),
        ("Ctrl+", "⌃"),
        ("Alt+", "⌥"),
        ("Shift+", "⇧"),
        ("Cmd+", "⌘"),
        ("Tab", "⇥"),
        ("Enter", "↵"),
        ("Return", "↵"),
        ("Esc", "⎋"),
        ("Del", "⌫"),
        ("Backspace", "⌫"),
        ("Caps", "⇪"),
    ]
}

/// Applies every replacement of the table to `text` in order and trims the result.
pub fn cleanup_ocr_artifacts(text: &str) -> (r: String)
    ensures
        r@ == cleaned_ocr_text(text@),
{
    let replacements = get_ocr_replacements();
    let mut result = chars_of(text);
    let mut i: usize = 0;
    proof {
        assert(replacements@.take(0) =~= Seq::<(&'static str, &'static str)>::empty());
    }
    while i < replacements.len()
        invariant
            i <= replacements.len(),
            replacements@ == ocr_replacement_table(),
            result@ == apply_replacements(text@, replacements@.take(i as int)),
        decreases replacements.len() - i,
    {
        let (pattern, substitute) = replacements[i];
        let pattern_chars = chars_of(pattern);
        let substitute_chars = chars_of(substitute);
        result = replace_all_chars(&result, &pattern_chars, &substitute_chars);
        proof {
            assert(replacements@.take(i + 1).drop_last() =~= replacements@.take(i as int));
        }
        i = i + 1;
    }
    proof {
        assert(replacements@.take(replacements.len() as int) =~= replacements@);
    }
    let trimmed = trim_chars(&result);
    string_from_chars(&trimmed)
}

} // verus!
