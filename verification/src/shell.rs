//! Quoting a string as one POSIX shell word, and the `cd` command that the
//! viewer leaves behind for its shell wrapper when it quits.
use vstd::prelude::*;
use vstd::string::*;
use crate::text::{push_char, owned, join2};

verus! {

/// The text that stands for one character inside a single-quoted word: a
/// single quote closes the quoting, is written inside double quotes, and the
/// quoting is opened again.
pub open spec fn quote_piece(c: char) -> Seq<char> {
    if c == '\'' {
        seq!['\'', '"', '\'', '"', '\'']
    } else {
        seq![c]
    }
}

/// The characters of `s` with every single quote escaped.
pub open spec fn quote_body(s: Seq<char>) -> Seq<char>
    decreases s.len(),
{
    if s.len() == 0 {
        Seq::empty()
    } else {
        quote_body(s.drop_last()) + quote_piece(s.last())
    }
}

/// `s` as one single-quoted shell word.
pub open spec fn single_quoted(s: Seq<char>) -> Seq<char> {
    seq!['\''] + quote_body(s) + seq!['\'']
}

/// Where a shell reader is inside a word.
pub enum QuoteMode {
    Bare,
    InSingle,
    InDouble,
}

/// What a shell reader has read of a word so far.
pub struct WordReading {
    pub mode: QuoteMode,
    pub value: Seq<char>,
}

/// How a shell reads one character of a word made of bare characters,
/// single-quoted runs and double-quoted runs that hold no `\`, `$` or
/// backquote.
pub open spec fn read_char(st: WordReading, c: char) -> WordReading {
    match st.mode {
        QuoteMode::Bare => if c == '\'' {
            WordReading { mode: QuoteMode::InSingle, value: st.value }
        } else if c == '"' {
            WordReading { mode: QuoteMode::InDouble, value: st.value }
        } else {
            WordReading { mode: QuoteMode::Bare, value: st.value.push(c) }
        },
        QuoteMode::InSingle => if c == '\'' {
            WordReading { mode: QuoteMode::Bare, value: st.value }
        } else {
            WordReading { mode: QuoteMode::InSingle, value: st.value.push(c) }
        },
        QuoteMode::InDouble => if c == '"' {
            WordReading { mode: QuoteMode::Bare, value: st.value }
        } else {
            WordReading { mode: QuoteMode::InDouble, value: st.value.push(c) }
        },
    }
}

/// Reading the characters of `w` one after the other.
pub open spec fn read_word_from(st: WordReading, w: Seq<char>) -> WordReading
    decreases w.len(),
{
    if w.len() == 0 {
        st
    } else {
        read_char(read_word_from(st, w.drop_last()), w.last())
    }
}

/// The string a shell word denotes, if every quote in it is closed.
pub open spec fn word_value(w: Seq<char>) -> Option<Seq<char>> {
    let st = read_word_from(WordReading { mode: QuoteMode::Bare, value: Seq::empty() }, w);
    match st.mode {
        QuoteMode::Bare => Some(st.value),
        _ => None,
    }
}

/// Reading `a + b` is reading `a`, then `b`.
proof fn lemma_read_concat(st: WordReading, a: Seq<char>, b: Seq<char>)
    ensures
        read_word_from(st, a + b) == read_word_from(read_word_from(st, a), b),
    decreases b.len(),
{
    if b.len() == 0 {
        assert(a + b =~= a);
    } else {
        assert((a + b).drop_last() =~= a + b.drop_last());
        lemma_read_concat(st, a, b.drop_last());
    }
}

/// Inside single quotes, the escaped form of `s` reads as `s`.
proof fn lemma_read_body(v: Seq<char>, s: Seq<char>)
    ensures
        read_word_from(WordReading { mode: QuoteMode::InSingle, value: v }, quote_body(s))
            == (WordReading { mode: QuoteMode::InSingle, value: v + s }),
    decreases s.len(),
{
    let st0 = WordReading { mode: QuoteMode::InSingle, value: v };
    if s.len() == 0 {
        assert(v + s =~= v);
    } else {
        lemma_read_body(v, s.drop_last());
        lemma_read_concat(st0, quote_body(s.drop_last()), quote_piece(s.last()));
        let mid = WordReading { mode: QuoteMode::InSingle, value: v + s.drop_last() };
        let p = quote_piece(s.last());
        reveal_with_fuel(read_word_from, 6);
        if s.last() == '\'' {
            assert(p.drop_last().drop_last().drop_last().drop_last() =~= seq!['\'']);
            assert(p.drop_last().drop_last().drop_last() =~= seq!['\'', '"']);
            assert(p.drop_last().drop_last() =~= seq!['\'', '"', '\'']);
            assert(p.drop_last() =~= seq!['\'', '"', '\'', '"']);
            assert(seq!['\''].drop_last() =~= Seq::<char>::empty());
        } else {
            assert(p.drop_last() =~= Seq::<char>::empty());
        }
        assert((v + s.drop_last()).push(s.last()) =~= v + s);
    }
}

/// Law: the single-quoted form of any string is one shell word that denotes
/// exactly that string.
pub proof fn lemma_single_quoted_reads_back(s: Seq<char>)
    ensures
        word_value(single_quoted(s)) == Some(s),
{
    let st0 = WordReading { mode: QuoteMode::Bare, value: Seq::empty() };
    let open = seq!['\''];
    lemma_read_concat(st0, open + quote_body(s), seq!['\'']);
    lemma_read_concat(st0, open, quote_body(s));
    reveal_with_fuel(read_word_from, 2);
    assert(open.drop_last() =~= Seq::<char>::empty());
    lemma_read_body(Seq::empty(), s);
    assert(Seq::<char>::empty() + s =~= s);
    assert(seq!['\''].drop_last() =~= Seq::<char>::empty());
}

/// `value` as one single-quoted shell word.
pub fn shell_single_quote(value: &str) -> (r: String)
    ensures
        r@ == single_quoted(value@),
{
    let n = value.unicode_len();
    let mut out = String::new();
    push_char(&mut out, '\'');
    let mut i: usize = 0;
    while i < n
        invariant
            n == value@.len(),
            i <= n,
            out@ == seq!['\''] + quote_body(value@.take(i as int)),
        decreases n - i,
    {
        let c = value.get_char(i);
        assert(value@.take(i + 1).drop_last() =~= value@.take(i as int));
        if c == '\'' {
            push_char(&mut out, '\'');
            push_char(&mut out, '"');
            push_char(&mut out, '\'');
            push_char(&mut out, '"');
            push_char(&mut out, '\'');
        } else {
            push_char(&mut out, c);
        }
        assert(out@ =~= seq!['\''] + quote_body(value@.take(i + 1)));
        i = i + 1;
    }
    assert(value@.take(n as int) =~= value@);
    push_char(&mut out, '\'');
    out
}

/// The command that changes the shell to `path`: `cd -- '<path>'`.
pub fn build_cd_on_quit_command(path: &str) -> (r: String)
    ensures
        r@ == "cd -- "@ + single_quoted(path@),
{
    let quoted = shell_single_quote(path);
    join2("cd -- ", quoted.as_str())
}

/// The text of the last-directory file: the `cd` command and a newline.
pub fn cd_on_quit_file_text(path: &str) -> (r: String)
    ensures
        r@ == "cd -- "@ + single_quoted(path@) + seq!['\n'],
{
    let mut line = build_cd_on_quit_command(path);
    push_char(&mut line, '\n');
    line
}

/// Whether the last-directory file is written: only when the viewer was
/// quit on purpose and `cd_on_quit` is set.
pub fn should_write_cd_on_quit_file(quit: bool, enabled: bool) -> (r: bool)
    ensures
        r == (quit && enabled),
{
    quit && enabled
}

} // verus!
