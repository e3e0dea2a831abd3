//! Programs written as whitespace-separated hexadecimal bytes.
use vstd::prelude::*;

verus! {

/// Why a program text could not be read.
#[derive(Debug, PartialEq, Eq)]
pub enum ProgramLoadError {
    /// The token at 1-based `position` is not a byte in hexadecimal.
    MalformedToken { position: usize, token: Vec<char> },
}

/// The Unicode white space characters, which separate tokens.
pub open spec fn is_space(c: char) -> bool {
    ('\u{9}' <= c <= '\u{d}') || c == ' ' || c == '\u{85}' || c == '\u{a0}' || c == '\u{1680}'
        || ('\u{2000}' <= c <= '\u{200a}') || c == '\u{2028}' || c == '\u{2029}' || c == '\u{202f}'
        || c == '\u{205f}' || c == '\u{3000}'
}

/// The completed tokens of `text` and the token still being read at its end.
pub open spec fn split_state(text: Seq<char>) -> (Seq<Seq<char>>, Seq<char>)
    decreases text.len(),
{
    if text.len() == 0 {
        (seq![], seq![])
    } else {
        let (done, cur) = split_state(text.drop_last());
        if !is_space(text.last()) {
            (done, cur.push(text.last()))
        } else if cur.len() > 0 {
            (done.push(cur), seq![])
        } else {
            (done, seq![])
        }
    }
}

/// The maximal runs of characters other than white space, in order.
pub open spec fn tokens(text: Seq<char>) -> Seq<Seq<char>> {
    let (done, cur) = split_state(text);
    if cur.len() > 0 { done.push(cur) } else { done }
}

pub open spec fn is_hex_digit(c: char) -> bool {
    ('0' <= c <= '9') || ('a' <= c <= 'f') || ('A' <= c <= 'F')
}

pub open spec fn digit_value(c: char) -> nat {
    if '0' <= c <= '9' {
        (c as int - '0' as int) as nat
    } else if 'a' <= c <= 'f' {
        (c as int - 'a' as int + 10) as nat
    } else {
        (c as int - 'A' as int + 10) as nat
    }
}

/// The number that hexadecimal digits `ds` write.
pub open spec fn digits_value(ds: Seq<char>) -> nat
    decreases ds.len(),
{
    if ds.len() == 0 {
        0
    } else {
        digits_value(ds.drop_last()) * 16 + digit_value(ds.last())
    }
}

/// The digits of a token: all of it but a leading `+`.
pub open spec fn digits_of(t: Seq<char>) -> Seq<char> {
    if t.len() > 0 && t[0] == '+' { t.drop_first() } else { t }
}

/// A token is a byte when its digits are hexadecimal, at least one, and
/// write a number below 256.
pub open spec fn valid_token(t: Seq<char>) -> bool {
    let ds = digits_of(t);
    &&& ds.len() > 0
    &&& forall|i: int| 0 <= i < ds.len() ==> is_hex_digit(#[trigger] ds[i])
    &&& digits_value(ds) < 256
}

/// The byte that a valid token writes.
pub open spec fn token_byte(t: Seq<char>) -> u8 {
    digits_value(digits_of(t)) as u8
}

fn is_space_char(c: char) -> (r: bool)
    ensures
        r == is_space(c),
{
    ('\u{9}' <= c && c <= '\u{d}') || c == ' ' || c == '\u{85}' || c == '\u{a0}' || c == '\u{1680}'
        || ('\u{2000}' <= c && c <= '\u{200a}') || c == '\u{2028}' || c == '\u{2029}' || c
        == '\u{202f}' || c == '\u{205f}' || c == '\u{3000}'
}

fn hex_digit_value(c: char) -> (r: Option<u8>)
    ensures
        r is Some <==> is_hex_digit(c),
        r is Some ==> r->0 == digit_value(c),
{
    if '0' <= c && c <= '9' {
        Some(((c as u32) - ('0' as u32)) as u8)
    } else if 'a' <= c && c <= 'f' {
        Some(((c as u32) - ('a' as u32) + 10) as u8)
    } else if 'A' <= c && c <= 'F' {
        Some(((c as u32) - ('A' as u32) + 10) as u8)
    } else {
        None
    }
}

/// Splits `text` into its tokens.
fn split_tokens(text: &[char]) -> (r: Vec<Vec<char>>)
    ensures
        r@.len() == tokens(text@).len(),
        forall|k: int| 0 <= k < r@.len() ==> (#[trigger] r@[k])@ == tokens(text@)[k],
{
    let mut done: Vec<Vec<char>> = Vec::new();
    let mut cur: Vec<char> = Vec::new();
    let ghost mut done_view: Seq<Seq<char>> = seq![];
    let mut i: usize = 0;
    while i < text.len()
        invariant
            i <= text.len(),
            split_state(text@.subrange(0, i as int)) == (done_view, cur@),
            done@.len() == done_view.len(),
            forall|k: int| 0 <= k < done@.len() ==> (#[trigger] done@[k])@ == done_view[k],
        decreases text.len() - i,
    {
        let c = text[i];
        proof {
            assert(text@.subrange(0, i + 1).drop_last() =~= text@.subrange(0, i as int));
        }
        if !is_space_char(c) {
            cur.push(c);
        } else if cur.len() > 0 {
            let token = cur;
            cur = Vec::new();
            proof {
                done_view = done_view.push(token@);
            }
            done.push(token);
        }
        i = i + 1;
    }
    proof {
        assert(text@.subrange(0, text@.len() as int) =~= text@);
    }
    if cur.len() > 0 {
        proof {
            done_view = done_view.push(cur@);
        }
        done.push(cur);
    }
    done
}

/// The byte that a token writes, when it is valid.
fn token_value(t: &Vec<char>) -> (r: Option<u8>)
    ensures
        r is Some <==> valid_token(t@),
        r is Some ==> r->0 == token_byte(t@),
{
    let start: usize = if t.len() > 0 && t[0] == '+' { 1 } else { 0 };
    let ghost ds = digits_of(t@);
    proof {
        assert(ds =~= t@.subrange(start as int, t@.len() as int));
    }
    if start >= t.len() {
        return None;
    }
    let mut acc: u32 = 0;
    let mut i: usize = start;
    while i < t.len()
        invariant
            start <= i <= t.len(),
            ds == digits_of(t@),
            ds =~= t@.subrange(start as int, t@.len() as int),
            forall|k: int| start <= k < i ==> is_hex_digit(#[trigger] t@[k]),
            acc <= 256,
            acc < 256 ==> acc == digits_value(t@.subrange(start as int, i as int)),
            acc == 256 ==> digits_value(t@.subrange(start as int, i as int)) >= 256,
        decreases t.len() - i,
    {
        let d = hex_digit_value(t[i]);
        match d {
            None => {
                proof {
                    assert(ds[i - start] == t@[i as int]);
                }
                return None;
            },
            Some(v) => {
                proof {
                    assert(t@.subrange(start as int, i + 1).drop_last() =~= t@.subrange(
                        start as int,
                        i as int,
                    ));
                }
                if acc < 256 {
                    acc = acc * 16 + v as u32;
                    if acc > 256 {
                        acc = 256;
                    }
                }
            },
        }
        i = i + 1;
    }
    proof {
        assert(t@.subrange(start as int, i as int) =~= ds);
        assert forall|k: int| 0 <= k < ds.len() implies is_hex_digit(#[trigger] ds[k]) by {
            assert(ds[k] == t@[k + start]);
        }
    }
    if acc < 256 {
        Some(acc as u8)
    } else {
        None
    }
}

/// Reads a program written as whitespace-separated hexadecimal bytes. It
/// fails on the first token that is not a byte, giving its 1-based position
/// and its text.
pub fn parse_program_text(text: &[char]) -> (r: Result<Vec<u8>, ProgramLoadError>)
    ensures
        match r {
            Ok(bytes) => {
                &&& forall|k: int| 0 <= k < tokens(text@).len() ==> valid_token(
                    #[trigger] tokens(text@)[k],
                )
                &&& bytes@ == tokens(text@).map_values(|t: Seq<char>| token_byte(t))
            },
            Err(ProgramLoadError::MalformedToken { position, token }) => {
                &&& 1 <= position <= tokens(text@).len()
                &&& token@ == tokens(text@)[position - 1]
                &&& !valid_token(token@)
                &&& forall|k: int| 0 <= k < position - 1 ==> valid_token(#[trigger] tokens(text@)[k])
            },
        },
{
    let toks = split_tokens(text);
    let ghost all = tokens(text@);
    let mut bytes: Vec<u8> = Vec::new();
    let mut k: usize = 0;
    while k < toks.len()
        invariant
            k <= toks@.len(),
            all == tokens(text@),
            toks@.len() == all.len(),
            forall|j: int| 0 <= j < toks@.len() ==> (#[trigger] toks@[j])@ == all[j],
            forall|j: int| 0 <= j < k ==> valid_token(#[trigger] all[j]),
            bytes@ =~= all.subrange(0, k as int).map_values(|t: Seq<char>| token_byte(t)),
        decreases toks.len() - k,
    {
        match token_value(&toks[k]) {
            Some(v) => {
                bytes.push(v);
            },
            None => {
                let token = toks[k].clone();
                proof {
                    assert(token@ =~= toks@[k as int]@);
                }
                return Err(ProgramLoadError::MalformedToken { position: k + 1, token });
            },
        }
        k = k + 1;
    }
    proof {
        assert(all.subrange(0, k as int) =~= all);
    }
    Ok(bytes)
}

} // verus!
