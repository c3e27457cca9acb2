//! Shell-word tokenization of command lines: words split on blanks,
//! single quotes taken literally, double quotes with backslash escapes
//! for the quote and the backslash, and a bare backslash escaping the
//! next character. Unbalanced quotes or a trailing backslash fail, and
//! the caller falls back to plain whitespace splitting.

use vstd::prelude::*;
use crate::text::{to_chars, chars_to_string};

verus! {

/// Whether a character separates words.
pub open spec fn is_blank(c: char) -> bool {
    c == ' ' || c == '\t' || c == '\n' || c == '\r'
}

/// The tokenizer's state after reading some prefix of the input: the
/// finished words, the word being built, whether a word is open, and
/// the mode — 0 plain, 1 in single quotes, 2 in double quotes, 3 after
/// a bare backslash, 4 after a backslash inside double quotes.
pub struct TokState {
    pub done: Seq<Seq<char>>,
    pub cur: Seq<char>,
    pub in_word: bool,
    pub mode: int,
}

/// The state before any input.
pub open spec fn tok_init() -> TokState {
    TokState { done: Seq::empty(), cur: Seq::empty(), in_word: false, mode: 0 }
}

/// One character's effect on the tokenizer's state.
pub open spec fn tok_step(st: TokState, c: char) -> TokState {
    if st.mode == 0 {
        if is_blank(c) {
            if st.in_word {
                TokState { done: st.done.push(st.cur), cur: Seq::empty(), in_word: false, mode: 0 }
            } else {
                st
            }
        } else if c == '\\' {
            TokState { mode: 3, in_word: true, ..st }
        } else if c == '\'' {
            TokState { mode: 1, in_word: true, ..st }
        } else if c == '"' {
            TokState { mode: 2, in_word: true, ..st }
        } else {
            TokState { cur: st.cur.push(c), in_word: true, ..st }
        }
    } else if st.mode == 1 {
        if c == '\'' {
            TokState { mode: 0, ..st }
        } else {
            TokState { cur: st.cur.push(c), ..st }
        }
    } else if st.mode == 2 {
        if c == '"' {
            TokState { mode: 0, ..st }
        } else if c == '\\' {
            TokState { mode: 4, ..st }
        } else {
            TokState { cur: st.cur.push(c), ..st }
        }
    } else if st.mode == 3 {
        TokState { cur: st.cur.push(c), mode: 0, ..st }
    } else {
        if c == '"' || c == '\\' {
            TokState { cur: st.cur.push(c), mode: 2, ..st }
        } else {
            TokState { cur: st.cur.push('\\').push(c), mode: 2, ..st }
        }
    }
}

/// The tokenizer's state after the first `i` characters.
pub open spec fn tok_run(s: Seq<char>, i: int) -> TokState
    decreases i,
{
    if i <= 0 {
        tok_init()
    } else {
        tok_step(tok_run(s, i - 1), s[i - 1])
    }
}

/// The words of a command line under shell-word rules, or None when a
/// quote is unbalanced or a backslash ends the input.
pub open spec fn shell_split(s: Seq<char>) -> Option<Seq<Seq<char>>> {
    let st = tok_run(s, s.len() as int);
    if st.mode != 0 {
        None
    } else if st.in_word {
        Some(st.done.push(st.cur))
    } else {
        Some(st.done)
    }
}

/// Split a command line into shell words.
pub fn split_shell_words(s: &str) -> (r: Option<Vec<String>>)
    ensures
        r is Some <==> shell_split(s@) is Some,
        r matches Some(v) ==> Some(v.deep_view()) == shell_split(s@),
{
    let chars = to_chars(s);
    let n = chars.len();
    let mut done: Vec<String> = Vec::new();
    let mut cur: Vec<char> = Vec::new();
    let mut in_word = false;
    let mut mode: u8 = 0;
    let mut i: usize = 0;
    while i < n
        invariant
            i <= n,
            n == s@.len(),
            chars@ == s@,
            done.deep_view() == tok_run(s@, i as int).done,
            cur@ == tok_run(s@, i as int).cur,
            in_word == tok_run(s@, i as int).in_word,
            mode as int == tok_run(s@, i as int).mode,
        decreases n - i,
    {
        let ghost st = tok_run(s@, i as int);
        let ghost old_done = done.deep_view();
        let c = chars[i];
        proof {
            assert(tok_run(s@, i + 1 as int) == tok_step(st, c));
        }
        if mode == 0 {
            if c == ' ' || c == '\t' || c == '\n' || c == '\r' {
                if in_word {
                    let word = chars_to_string(&cur);
                    done.push(word);
                    cur = Vec::new();
                    in_word = false;
                    assert(done.deep_view() =~= old_done.push(st.cur));
                }
            } else if c == '\\' {
                mode = 3;
                in_word = true;
            } else if c == '\'' {
                mode = 1;
                in_word = true;
            } else if c == '"' {
                mode = 2;
                in_word = true;
            } else {
                cur.push(c);
                in_word = true;
            }
        } else if mode == 1 {
            if c == '\'' {
                mode = 0;
            } else {
                cur.push(c);
            }
        } else if mode == 2 {
            if c == '"' {
                mode = 0;
            } else if c == '\\' {
                mode = 4;
            } else {
                cur.push(c);
            }
        } else if mode == 3 {
            cur.push(c);
            mode = 0;
        } else {
            if c == '"' || c == '\\' {
                cur.push(c);
                mode = 2;
            } else {
                cur.push('\\');
                cur.push(c);
                mode = 2;
            }
        }
        i = i + 1;
    }
    if mode != 0 {
        return None;
    }
    if in_word {
        let word = chars_to_string(&cur);
        let ghost old_done = done.deep_view();
        done.push(word);
        assert(done.deep_view() =~= old_done.push(tok_run(s@, n as int).cur));
    }
    Some(done)
}

/// The words of a line split on blanks alone, with no empty words.
pub open spec fn ws_run(s: Seq<char>, i: int) -> (Seq<Seq<char>>, Seq<char>)
    decreases i,
{
    if i <= 0 {
        (Seq::<Seq<char>>::empty(), Seq::<char>::empty())
    } else {
        let st = ws_run(s, i - 1);
        let c = s[i - 1];
        if is_blank(c) {
            if st.1.len() > 0 {
                (st.0.push(st.1), Seq::<char>::empty())
            } else {
                st
            }
        } else {
            (st.0, st.1.push(c))
        }
    }
}

/// The words of a line under plain whitespace splitting.
pub open spec fn ws_split(s: Seq<char>) -> Seq<Seq<char>> {
    let st = ws_run(s, s.len() as int);
    if st.1.len() > 0 {
        st.0.push(st.1)
    } else {
        st.0
    }
}

/// Split a line on whitespace, dropping empty words.
pub fn split_whitespace_words(s: &str) -> (r: Vec<String>)
    ensures
        r.deep_view() == ws_split(s@),
{
    let chars = to_chars(s);
    let n = chars.len();
    let mut done: Vec<String> = Vec::new();
    let mut cur: Vec<char> = Vec::new();
    let mut i: usize = 0;
    while i < n
        invariant
            i <= n,
            n == s@.len(),
            chars@ == s@,
            done.deep_view() == ws_run(s@, i as int).0,
            cur@ == ws_run(s@, i as int).1,
        decreases n - i,
    {
        let ghost st = ws_run(s@, i as int);
        let ghost old_done = done.deep_view();
        let c = chars[i];
        if c == ' ' || c == '\t' || c == '\n' || c == '\r' {
            if cur.len() > 0 {
                let word = chars_to_string(&cur);
                done.push(word);
                cur = Vec::new();
                assert(done.deep_view() =~= old_done.push(st.1));
            }
        } else {
            cur.push(c);
        }
        i = i + 1;
    }
    if cur.len() > 0 {
        let word = chars_to_string(&cur);
        let ghost old_done = done.deep_view();
        done.push(word);
        assert(done.deep_view() =~= old_done.push(ws_run(s@, n as int).1));
    }
    done
}

/// The text up to (and not holding) the first line break, or all of it.
pub open spec fn first_line(s: Seq<char>) -> Seq<char>
    decreases s.len(),
{
    if s.len() == 0 {
        s
    } else if s[0] == '\n' {
        Seq::empty()
    } else {
        seq![s[0]] + first_line(s.drop_first())
    }
}

/// Up to the first break, the line is the prefix before it.
proof fn lemma_first_line_take(s: Seq<char>, k: int)
    requires
        0 <= k <= s.len(),
        forall|j: int| 0 <= j < k ==> s[j] != '\n',
        k < s.len() ==> s[k] == '\n',
    ensures
        first_line(s) == s.take(k),
    decreases s.len(),
{
    if s.len() == 0 {
        assert(s.take(0) =~= s);
    } else if s[0] == '\n' {
        assert(k == 0);
        assert(s.take(0) =~= Seq::<char>::empty());
    } else {
        assert(k >= 1);
        lemma_first_line_take(s.drop_first(), k - 1);
        assert(seq![s[0]] + s.drop_first().take(k - 1) =~= s.take(k));
    }
}

/// The first line of a comment body: the command candidate.
pub fn take_first_line(s: &str) -> (r: String)
    ensures
        r@ == first_line(s@),
{
    let chars = to_chars(s);
    let n = chars.len();
    let mut k: usize = 0;
    while k < n
        invariant
            k <= n,
            n == s@.len(),
            chars@ == s@,
            forall|j: int| 0 <= j < k ==> s@[j] != '\n',
        decreases n - k,
    {
        if chars[k] == '\n' {
            proof {
                lemma_first_line_take(s@, k as int);
            }
            let line = s.substring_char(0, k);
            assert(line@ =~= s@.take(k as int));
            return line.to_owned();
        }
        k = k + 1;
    }
    proof {
        lemma_first_line_take(s@, n as int);
    }
    assert(s@.take(n as int) =~= s@);
    s.to_owned()
}

/// The tokens of a command line: shell words where they parse, plain
/// whitespace words otherwise.
pub open spec fn line_tokens(line: Seq<char>) -> Seq<Seq<char>> {
    match shell_split(line) {
        Some(tokens) => tokens,
        None => ws_split(line),
    }
}

/// Tokenize a command line, falling back to whitespace splitting when
/// shell-word parsing fails.
pub fn tokenize_line(line: &str) -> (r: Vec<String>)
    ensures
        r.deep_view() == line_tokens(line@),
{
    match split_shell_words(line) {
        Some(tokens) => tokens,
        None => split_whitespace_words(line),
    }
}

} // verus!
