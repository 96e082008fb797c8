//! A JSON rendering of the current question/answer state.  It is sent to the
//! backend as ground truth during the answer and resume stages, since
//! free-text recall from a windowed transcript is unreliable.
//!
//! The encoding is specified here from the ground up: an array of objects
//! `{"index":N,"question":"...","answer":"..."}` with `null` for a question
//! not yet answered, and string escaping as JSON requires it.

use vstd::prelude::*;
use vstd::string::StringExecFns;

use crate::user::{Question, QuestionV, question_views};

verus! {

/// The hexadecimal digit character for `d`, lower case.
pub open spec fn hex_digit(d: int) -> char {
    if d == 0 { '0' } else if d == 1 { '1' } else if d == 2 { '2' } else if d == 3 { '3' }
    else if d == 4 { '4' } else if d == 5 { '5' } else if d == 6 { '6' } else if d == 7 { '7' }
    else if d == 8 { '8' } else if d == 9 { '9' } else if d == 10 { 'a' } else if d == 11 { 'b' }
    else if d == 12 { 'c' } else if d == 13 { 'd' } else if d == 14 { 'e' } else { 'f' }
}

/// How one character appears inside a JSON string literal: quotes and
/// backslashes get a backslash, the named control characters their short
/// escapes, the remaining control characters a `\u00XX` escape, and
/// everything else stands as itself.
pub open spec fn escaped_char(c: char) -> Seq<char> {
    if c == '"' { seq!['\\', '"'] }
    else if c == '\\' { seq!['\\', '\\'] }
    else if c == '\u{0008}' { seq!['\\', 'b'] }
    else if c == '\u{0009}' { seq!['\\', 't'] }
    else if c == '\u{000a}' { seq!['\\', 'n'] }
    else if c == '\u{000c}' { seq!['\\', 'f'] }
    else if c == '\u{000d}' { seq!['\\', 'r'] }
    else if (c as u32) < 32 {
        seq!['\\', 'u', '0', '0', hex_digit(c as u32 as int / 16), hex_digit(c as u32 as int % 16)]
    } else {
        seq![c]
    }
}

/// A string's characters, each escaped for a JSON string literal.
pub open spec fn escaped(s: Seq<char>) -> Seq<char>
    decreases s.len(),
{
    if s.len() == 0 {
        Seq::empty()
    } else {
        escaped_char(s[0]) + escaped(s.skip(1))
    }
}

/// A JSON string literal: the escaped characters between double quotes.
pub open spec fn quoted(s: Seq<char>) -> Seq<char> {
    seq!['"'] + escaped(s) + seq!['"']
}

/// The decimal digit character for `d`.
pub open spec fn dec_digit(d: int) -> char {
    if d == 0 { '0' } else if d == 1 { '1' } else if d == 2 { '2' } else if d == 3 { '3' }
    else if d == 4 { '4' } else if d == 5 { '5' } else if d == 6 { '6' } else if d == 7 { '7' }
    else if d == 8 { '8' } else { '9' }
}

/// The decimal notation of a nonnegative number, most significant digit
/// first, without leading zeros.
pub open spec fn decimal_rep(n: int) -> Seq<char>
    recommends
        n >= 0,
    decreases n,
{
    if n < 10 {
        seq![dec_digit(n)]
    } else {
        decimal_rep(n / 10).push(dec_digit(n % 10))
    }
}

/// One question as a JSON object.
pub open spec fn question_json(q: QuestionV) -> Seq<char> {
    "{\"index\":"@ + decimal_rep(q.index) + ",\"question\":"@ + quoted(q.question)
        + ",\"answer\":"@ + (match q.answer {
        Some(a) => quoted(a),
        None => "null"@,
    }) + "}"@
}

/// The question objects joined by commas.
pub open spec fn question_items(qs: Seq<QuestionV>) -> Seq<char>
    decreases qs.len(),
{
    if qs.len() == 0 {
        Seq::empty()
    } else if qs.len() == 1 {
        question_json(qs[0])
    } else {
        question_json(qs[0]) + seq![','] + question_items(qs.skip(1))
    }
}

/// The whole question list as a JSON array.
pub open spec fn questions_json(qs: Seq<QuestionV>) -> Seq<char> {
    seq!['['] + question_items(qs) + seq![']']
}

/// Relies on std's `String::push`: appends exactly the given character.
#[verifier::external_body]
fn push_char(out: &mut String, c: char)
    ensures
        final(out)@ == old(out)@.push(c),
{
    out.push(c);
}

fn dec_digit_char(d: usize) -> (c: char)
    requires
        d < 10,
    ensures
        c == dec_digit(d as int),
{
    match d {
        0 => '0',
        1 => '1',
        2 => '2',
        3 => '3',
        4 => '4',
        5 => '5',
        6 => '6',
        7 => '7',
        8 => '8',
        _ => '9',
    }
}

fn hex_digit_char(d: u32) -> (c: char)
    requires
        d < 16,
    ensures
        c == hex_digit(d as int),
{
    match d {
        0 => '0',
        1 => '1',
        2 => '2',
        3 => '3',
        4 => '4',
        5 => '5',
        6 => '6',
        7 => '7',
        8 => '8',
        9 => '9',
        10 => 'a',
        11 => 'b',
        12 => 'c',
        13 => 'd',
        14 => 'e',
        _ => 'f',
    }
}

fn push_decimal(out: &mut String, n: usize)
    ensures
        final(out)@ == old(out)@ + decimal_rep(n as int),
    decreases n,
{
    if n < 10 {
        push_char(out, dec_digit_char(n));
        proof {
            assert(old(out)@.push(dec_digit(n as int)) =~= old(out)@ + decimal_rep(n as int));
        }
    } else {
        push_decimal(out, n / 10);
        push_char(out, dec_digit_char(n % 10));
        proof {
            assert((old(out)@ + decimal_rep(n as int / 10)).push(dec_digit(n as int % 10)) =~= old(
                out,
            )@ + decimal_rep(n as int));
        }
    }
}

proof fn lemma_escaped_snoc(a: Seq<char>, x: char)
    ensures
        escaped(a.push(x)) == escaped(a) + escaped_char(x),
    decreases a.len(),
{
    if a.len() == 0 {
        assert(a.push(x)[0] == x);
        assert(a.push(x).skip(1) =~= Seq::<char>::empty());
        assert(escaped(Seq::<char>::empty()) =~= Seq::<char>::empty());
        assert(escaped(a.push(x)) =~= escaped(a) + escaped_char(x));
    } else {
        assert(a.push(x)[0] == a[0]);
        assert(a.push(x).skip(1) =~= a.skip(1).push(x));
        lemma_escaped_snoc(a.skip(1), x);
        assert(escaped(a.push(x)) =~= escaped(a) + escaped_char(x));
    }
}

fn push_escaped(out: &mut String, s: &str)
    ensures
        final(out)@ == old(out)@ + escaped(s@),
{
    let n = s.unicode_len();
    let mut i: usize = 0;
    while i < n
        invariant
            i <= n,
            n == s@.len(),
            out@ == old(out)@ + escaped(s@.take(i as int)),
        decreases n - i,
    {
        let c = s.get_char(i);
        let code = c as u32;
        if c == '"' {
            push_char(out, '\\');
            push_char(out, '"');
        } else if c == '\\' {
            push_char(out, '\\');
            push_char(out, '\\');
        } else if code == 8 {
            push_char(out, '\\');
            push_char(out, 'b');
        } else if code == 9 {
            push_char(out, '\\');
            push_char(out, 't');
        } else if code == 10 {
            push_char(out, '\\');
            push_char(out, 'n');
        } else if code == 12 {
            push_char(out, '\\');
            push_char(out, 'f');
        } else if code == 13 {
            push_char(out, '\\');
            push_char(out, 'r');
        } else if code < 32 {
            push_char(out, '\\');
            push_char(out, 'u');
            push_char(out, '0');
            push_char(out, '0');
            push_char(out, hex_digit_char(code / 16));
            push_char(out, hex_digit_char(code % 16));
        } else {
            push_char(out, c);
        }
        proof {
            lemma_escaped_snoc(s@.take(i as int), c);
            assert(s@.take(i as int).push(c) =~= s@.take(i as int + 1));
            assert(out@ =~= old(out)@ + escaped(s@.take(i as int + 1)));
        }
        i += 1;
    }
    proof {
        assert(s@.take(n as int) =~= s@);
    }
}

fn push_quoted(out: &mut String, s: &str)
    ensures
        final(out)@ == old(out)@ + quoted(s@),
{
    push_char(out, '"');
    push_escaped(out, s);
    push_char(out, '"');
    proof {
        assert(((old(out)@.push('"')) + escaped(s@)).push('"') =~= old(out)@ + quoted(s@));
    }
}

fn push_question(out: &mut String, q: &Question)
    ensures
        final(out)@ == old(out)@ + question_json(q@),
{
    out.append("{\"index\":");
    push_decimal(out, q.index);
    out.append(",\"question\":");
    push_quoted(out, q.question.as_str());
    out.append(",\"answer\":");
    match &q.answer {
        Some(a) => push_quoted(out, a.as_str()),
        None => out.append("null"),
    }
    out.append("}");
    proof {
        assert(out@ =~= old(out)@ + question_json(q@));
    }
}

/// The whole question list, rendered as the JSON array the backend is shown.
pub fn questions_to_json(qs: &Vec<Question>) -> (r: String)
    ensures
        r@ == questions_json(question_views(qs@)),
{
    let mut out = String::new();
    push_char(&mut out, '[');
    let mut i: usize = 0;
    while i < qs.len()
        invariant
            i <= qs@.len(),
            out@ == seq!['['] + question_items(question_views(qs@).take(i as int)),
        decreases qs@.len() - i,
    {
        if i > 0 {
            push_char(&mut out, ',');
        }
        push_question(&mut out, &qs[i]);
        proof {
            let views = question_views(qs@);
            assert(views[i as int] == qs@[i as int]@);
            lemma_items_snoc(views.take(i as int), views[i as int]);
            assert(views.take(i as int).push(views[i as int]) =~= views.take(i as int + 1));
            assert(out@ =~= seq!['['] + question_items(views.take(i as int + 1)));
        }
        i += 1;
    }
    push_char(&mut out, ']');
    proof {
        assert(question_views(qs@).take(qs@.len() as int) =~= question_views(qs@));
        assert(out@ =~= questions_json(question_views(qs@)));
    }
    out
}

proof fn lemma_items_snoc(qs: Seq<QuestionV>, x: QuestionV)
    ensures
        question_items(qs.push(x)) == if qs.len() == 0 {
            question_json(x)
        } else {
            question_items(qs) + seq![','] + question_json(x)
        },
    decreases qs.len(),
{
    if qs.len() == 0 {
        assert(qs.push(x)[0] == x);
    } else {
        assert(qs.push(x)[0] == qs[0]);
        assert(qs.push(x).skip(1) =~= qs.skip(1).push(x));
        lemma_items_snoc(qs.skip(1), x);
        if qs.len() == 1 {
            assert(question_items(qs.push(x)) =~= question_items(qs) + seq![','] + question_json(
                x,
            ));
        } else {
            assert(question_items(qs.push(x)) =~= question_items(qs) + seq![','] + question_json(
                x,
            ));
        }
    }
}

} // verus!
