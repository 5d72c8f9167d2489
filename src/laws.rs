//! Properties of scanning that relate several steps or hold of all inputs.
use vstd::prelude::*;
use crate::model::{
    is_digit, is_letter, is_whitespace, lemma_run_end, run_end, scan, single_char_kind, CharClass,
};
use crate::token::TokenType;

verus! {

/// Every character of `s` is whitespace.
pub open spec fn all_whitespace(s: Seq<char>) -> bool {
    forall|i: int| 0 <= i < s.len() ==> is_whitespace(#[trigger] s[i])
}

/// Every character of `s` starts or continues a token other than a string
/// literal: whitespace, a letter, a digit, `=`, `!`, or a one-character
/// operator or delimiter.
pub open spec fn plain_program(s: Seq<char>) -> bool {
    forall|i: int|
        0 <= i < s.len() ==> {
            let c = #[trigger] s[i];
            is_whitespace(c) || is_letter(c) || is_digit(c) || c == '=' || c == '!'
                || single_char_kind(c) is Some
        }
}

/// The whitespace skipped before each token, followed by the token's text,
/// for the tokens scanned from offset `pos` up to the end of input; the text
/// of unrecognized characters is left out.
pub open spec fn rebuild(s: Seq<char>, pos: int) -> Seq<char>
    decreases s.len() - pos,
{
    if 0 <= pos <= s.len() {
        let lx = scan(s, pos);
        let gap = s.subrange(pos, run_end(s, pos, CharClass::Whitespace));
        if lx.kind == TokenType::EOF || !(pos < lx.end <= s.len()) {
            gap
        } else {
            let t = if lx.kind == TokenType::ILLEGAL {
                Seq::empty()
            } else {
                lx.text
            };
            gap + t + rebuild(s, lx.end)
        }
    } else {
        Seq::empty()
    }
}

/// On input made of whitespace alone, the first token is the end of input.
pub proof fn whitespace_only_gives_eof(s: Seq<char>)
    requires
        all_whitespace(s),
    ensures
        scan(s, 0).kind == TokenType::EOF,
        scan(s, 0).text.len() == 0,
{
    lemma_whitespace_runs_to_end(s, 0);
}

proof fn lemma_whitespace_runs_to_end(s: Seq<char>, i: int)
    requires
        all_whitespace(s),
        0 <= i <= s.len(),
    ensures
        run_end(s, i, CharClass::Whitespace) == s.len(),
    decreases s.len() - i,
{
    if i < s.len() {
        lemma_whitespace_runs_to_end(s, i + 1);
    }
}

/// A scanning step never moves the cursor backward nor past the end of
/// input, and every token but the end of input moves it forward.
pub proof fn scan_moves_forward(s: Seq<char>, pos: int)
    requires
        0 <= pos <= s.len(),
    ensures
        pos <= scan(s, pos).end <= s.len(),
        scan(s, pos).kind != TokenType::EOF ==> pos < scan(s, pos).end,
{
    let start = run_end(s, pos, CharClass::Whitespace);
    lemma_run_end(s, pos, CharClass::Whitespace);
    if start < s.len() {
        lemma_run_end(s, start, CharClass::Letter);
        lemma_run_end(s, start, CharClass::Digit);
        lemma_run_end(s, start + 1, CharClass::NotQuote);
    }
}

/// Once the end of input has been produced, asking again yields the end of
/// input once more, with the cursor where it was.
pub proof fn eof_is_stable(s: Seq<char>, pos: int)
    requires
        0 <= pos <= s.len(),
        scan(s, pos).kind == TokenType::EOF,
    ensures
        scan(s, scan(s, pos).end) == scan(s, pos),
{
    lemma_run_end(s, pos, CharClass::Whitespace);
}

/// On a program without string literals or unrecognized characters, the
/// skipped whitespace and the tokens' texts, in order, give back the input.
pub proof fn tokens_rebuild_input(s: Seq<char>)
    requires
        plain_program(s),
    ensures
        rebuild(s, 0) == s,
{
    lemma_rebuild_from(s, 0);
    assert(s.subrange(0, s.len() as int) =~= s);
}

proof fn lemma_rebuild_from(s: Seq<char>, pos: int)
    requires
        plain_program(s),
        0 <= pos <= s.len(),
    ensures
        rebuild(s, pos) == s.subrange(pos, s.len() as int),
    decreases s.len() - pos,
{
    let lx = scan(s, pos);
    let start = run_end(s, pos, CharClass::Whitespace);
    lemma_run_end(s, pos, CharClass::Whitespace);
    scan_moves_forward(s, pos);
    if lx.kind == TokenType::EOF {
        return;
    }
    let c = s[start];
    assert(c != '"');
    if is_letter(c) {
        lemma_run_end(s, start + 1, CharClass::Letter);
    }
    if is_digit(c) {
        lemma_run_end(s, start + 1, CharClass::Digit);
    }
    assert(lx.kind != TokenType::ILLEGAL);
    assert(lx.text == s.subrange(start, lx.end));
    lemma_rebuild_from(s, lx.end);
    assert(rebuild(s, pos) =~= s.subrange(pos, s.len() as int));
}

} // verus!
