//! Text helpers: decimal rendering of integers and character dictionaries.

use vstd::prelude::*;
use vstd::std_specs::iter::IteratorSpec;

verus! {

/// The ASCII decimal digit for `d` (`0 <= d < 10`).
pub open spec fn digit_char(d: nat) -> char {
    if d == 0 { '0' }
    else if d == 1 { '1' }
    else if d == 2 { '2' }
    else if d == 3 { '3' }
    else if d == 4 { '4' }
    else if d == 5 { '5' }
    else if d == 6 { '6' }
    else if d == 7 { '7' }
    else if d == 8 { '8' }
    else { '9' }
}

/// The decimal representation of `n`, most significant digit first, without
/// leading zeros (`0` is written as a single `'0'`).
pub open spec fn decimal(n: nat) -> Seq<char>
    decreases n,
{
    if n < 10 {
        seq![digit_char(n)]
    } else {
        decimal(n / 10).push(digit_char(n % 10))
    }
}

/// `String::push`: appends `c` to the end of `s`.
#[verifier::external_body]
pub(crate) fn push_char(s: &mut String, c: char)
    ensures
        final(s)@ == old(s)@.push(c),
{
    s.push(c);
}

fn digit_of(d: usize) -> (c: char)
    requires
        d < 10,
    ensures
        c == digit_char(d as nat),
{
    if d == 0 { '0' }
    else if d == 1 { '1' }
    else if d == 2 { '2' }
    else if d == 3 { '3' }
    else if d == 4 { '4' }
    else if d == 5 { '5' }
    else if d == 6 { '6' }
    else if d == 7 { '7' }
    else if d == 8 { '8' }
    else { '9' }
}

fn append_decimal(s: &mut String, n: usize)
    ensures
        final(s)@ == old(s)@ + decimal(n as nat),
    decreases n,
{
    if n >= 10 {
        append_decimal(s, n / 10);
    }
    push_char(s, digit_of(n % 10));
    assert(s@ =~= old(s)@ + decimal(n as nat));
}

/// Renders `n` in decimal, as `usize::to_string` does.
pub fn usize_to_decimal(n: usize) -> (s: String)
    ensures
        s@ == decimal(n as nat),
{
    let mut s = String::new();
    append_decimal(&mut s, n);
    assert(s@ =~= decimal(n as nat));
    s
}

/// The number a string of ASCII decimal digits denotes.
pub open spec fn digits_value(s: Seq<char>) -> nat
    decreases s.len(),
{
    if s.len() == 0 {
        0
    } else {
        digits_value(s.drop_last()) * 10 + ((s.last() as u32) - 48) as nat
    }
}

/// `true` when every character of `s` is an ASCII decimal digit.
pub open spec fn all_digits(s: Seq<char>) -> bool {
    forall|i: int| 0 <= i < s.len() ==> '0' <= #[trigger] s[i] <= '9'
}

proof fn lemma_digit_char_code(d: nat)
    requires
        d < 10,
    ensures
        digit_char(d) as u32 == 48 + d,
        '0' <= digit_char(d) <= '9',
{
}

/// The decimal rendering of `n` is a non-empty run of decimal digits, with
/// no leading zero unless `n` is zero, that denotes `n`.
pub proof fn law_decimal_denotes(n: nat)
    ensures
        decimal(n).len() >= 1,
        all_digits(decimal(n)),
        digits_value(decimal(n)) == n,
        decimal(n)[0] == '0' ==> n == 0,
    decreases n,
{
    lemma_digit_char_code(n % 10);
    if n < 10 {
        let s = decimal(n);
        assert(s.drop_last() =~= Seq::<char>::empty());
        assert(n % 10 == n);
        assert(digits_value(Seq::<char>::empty()) == 0);
        assert(s.last() == digit_char(n));
        assert(digits_value(s) == digits_value(s.drop_last()) * 10 + ((s.last() as u32) - 48) as nat);
    } else {
        law_decimal_denotes(n / 10);
        let d = decimal(n / 10);
        let s = decimal(n);
        assert(s == d.push(digit_char(n % 10)));
        assert(s.drop_last() =~= d);
        assert forall|i: int| 0 <= i < s.len() implies '0' <= #[trigger] s[i] <= '9' by {
            if i < d.len() {
                assert(s[i] == d[i]);
            }
        }
        assert(s[0] == d[0]);
        assert(s.last() == digit_char(n % 10));
        assert(digits_value(s) == digits_value(d) * 10 + ((s.last() as u32) - 48) as nat);
        assert(n == (n / 10) * 10 + n % 10) by (nonlinear_arith);
    }
}

/// `true` when `s` holds no line feed.
pub open spec fn no_line_feed(s: Seq<char>) -> bool {
    forall|i: int| 0 <= i < s.len() ==> s[i] != '\n'
}

/// The position of the first line feed in `s`, or `s.len()` when there is none.
pub open spec fn first_line_feed(s: Seq<char>) -> nat
    decreases s.len(),
{
    if s.len() == 0 {
        0
    } else if s[0] == '\n' {
        0
    } else {
        1 + first_line_feed(s.drop_first())
    }
}

/// `t` without one trailing carriage return, if it ends with one.
pub open spec fn strip_carriage_return(t: Seq<char>) -> Seq<char> {
    if t.len() > 0 && t.last() == '\r' {
        t.drop_last()
    } else {
        t
    }
}

/// The lines of `s`, as `str::lines` yields them: `s` is split after each
/// line feed; a line that was ended by a line feed loses it, and then one
/// carriage return just before it; a last piece with no line feed is a line
/// as it is, and an empty string has no lines.
pub open spec fn text_lines(s: Seq<char>) -> Seq<Seq<char>>
    decreases s.len(),
{
    if s.len() == 0 {
        seq![]
    } else {
        let k = first_line_feed(s);
        if k >= s.len() {
            seq![s]
        } else {
            seq![strip_carriage_return(s.take(k as int))] + text_lines(s.skip(k + 1 as int))
        }
    }
}

/// The text made of `lines`, each followed by a line feed.
pub open spec fn terminated_lines(lines: Seq<Seq<char>>) -> Seq<char>
    decreases lines.len(),
{
    if lines.len() == 0 {
        seq![]
    } else {
        (lines[0] + seq!['\n']) + terminated_lines(lines.drop_first())
    }
}

proof fn lemma_first_line_feed_bound(s: Seq<char>)
    ensures
        first_line_feed(s) <= s.len(),
        first_line_feed(s) < s.len() ==> s[first_line_feed(s) as int] == '\n',
        no_line_feed(s.take(first_line_feed(s) as int)),
    decreases s.len(),
{
    if s.len() > 0 && s[0] != '\n' {
        lemma_first_line_feed_bound(s.drop_first());
        let k = first_line_feed(s.drop_first());
        assert forall|i: int| 0 <= i < first_line_feed(s) implies #[trigger] s.take(
            first_line_feed(s) as int,
        )[i] != '\n' by {
            if i > 0 {
                assert(s.take(first_line_feed(s) as int)[i] == s.drop_first().take(k as int)[i - 1]);
            }
        }
    }
}

proof fn lemma_first_line_feed_after(t: Seq<char>, u: Seq<char>)
    requires
        no_line_feed(t),
        u.len() > 0,
        u[0] == '\n',
    ensures
        first_line_feed(t + u) == t.len(),
    decreases t.len(),
{
    if t.len() > 0 {
        assert((t + u).drop_first() =~= t.drop_first() + u);
        lemma_first_line_feed_after(t.drop_first(), u);
    } else {
        assert(t + u =~= u);
    }
}

proof fn lemma_first_line_feed_none(t: Seq<char>)
    requires
        no_line_feed(t),
    ensures
        first_line_feed(t) == t.len(),
    decreases t.len(),
{
    if t.len() > 0 {
        lemma_first_line_feed_none(t.drop_first());
    }
}

/// The lines of a pending, line-feed-free prefix followed by a line feed.
proof fn lemma_text_lines_at_line_feed(t: Seq<char>, rest: Seq<char>)
    requires
        no_line_feed(t),
    ensures
        text_lines(t + seq!['\n'] + rest) == seq![strip_carriage_return(t)] + text_lines(rest),
{
    let s = t + seq!['\n'] + rest;
    assert(s =~= t + (seq!['\n'] + rest));
    lemma_first_line_feed_after(t, seq!['\n'] + rest);
    assert(s.take(t.len() as int) =~= t);
    assert(s.skip(t.len() as int + 1) =~= rest);
}

/// The lines of a line-feed-free text.
proof fn lemma_text_lines_last(t: Seq<char>)
    requires
        no_line_feed(t),
    ensures
        text_lines(t) == (if t.len() == 0 { seq![] } else { seq![t] }),
{
    lemma_first_line_feed_none(t);
}

/// Splits a character dictionary into its entries, one per line, exactly as
/// `str::lines` does.
pub fn character_dict_lines(content: &str) -> (entries: Vec<String>)
    ensures
        entries.deep_view() == text_lines(content@),
{
    broadcast use vstd::string::group_string_axioms;

    let mut entries: Vec<String> = Vec::new();
    let mut cur = String::new();
    let mut pending_cr = false;
    let ghost text = content@;
    let ghost mut pos: int = 0;
    let mut chars = content.chars();
    assert(chars.remaining() == text);
    assert(entries.deep_view() + text_lines(cur@ + text.skip(0)) =~= text_lines(text)) by {
        assert(cur@ + text.skip(0) =~= text);
    }
    loop
        invariant
            0 <= pos <= text.len(),
            chars.remaining() == text.skip(pos),
            no_line_feed(cur@),
            !pending_cr ==> !(cur@.len() > 0 && cur@.last() == '\r'),
            text_lines(text) == entries.deep_view() + text_lines(
                (if pending_cr { cur@.push('\r') } else { cur@ }) + text.skip(pos),
            ),
        ensures
            pos == text.len(),
            no_line_feed(cur@),
            text_lines(text) == entries.deep_view() + text_lines(
                (if pending_cr { cur@.push('\r') } else { cur@ }) + text.skip(pos),
            ),
        decreases text.len() - pos,
    {
        let ghost raw = if pending_cr { cur@.push('\r') } else { cur@ };
        let next = chars.next();
        match next {
            None => {
                assert(text.skip(pos).len() == 0);
                assert(pos == text.len());
                break;
            }
            Some(c) => {
                assert(text.skip(pos)[0] == c);
                assert(text.skip(pos) =~= seq![c] + text.skip(pos + 1));
                if c == '\n' {
                    proof {
                        lemma_text_lines_at_line_feed(raw, text.skip(pos + 1));
                        assert(raw + seq!['\n'] + text.skip(pos + 1) =~= raw + text.skip(pos));
                        assert(strip_carriage_return(raw) =~= cur@);
                    }
                    let ghost before = entries.deep_view();
                    entries.push(cur);
                    assert(entries.deep_view() =~= before.push(strip_carriage_return(raw)));
                    cur = String::new();
                    pending_cr = false;
                    assert(text_lines(text) =~= entries.deep_view() + text_lines(
                        cur@ + text.skip(pos + 1),
                    )) by {
                        assert(cur@ + text.skip(pos + 1) =~= text.skip(pos + 1));
                    }
                } else if c == '\r' {
                    if pending_cr {
                        push_char(&mut cur, '\r');
                    }
                    pending_cr = true;
                    assert(cur@.push('\r') + text.skip(pos + 1) =~= raw + text.skip(pos));
                } else {
                    if pending_cr {
                        push_char(&mut cur, '\r');
                    }
                    pending_cr = false;
                    push_char(&mut cur, c);
                    assert(cur@ + text.skip(pos + 1) =~= raw + text.skip(pos));
                }
                proof {
                    pos = pos + 1;
                }
            }
        }
    }
    if pending_cr {
        push_char(&mut cur, '\r');
    }
    proof {
        assert(cur@ + text.skip(pos) =~= cur@);
        lemma_text_lines_last(cur@);
    }
    if !cur.as_str().is_empty() {
        let ghost before = entries.deep_view();
        entries.push(cur);
        assert(entries.deep_view() =~= before.push(cur@));
    } else {
        assert(entries.deep_view() + seq![] =~= entries.deep_view());
    }
    entries
}

/// `true` when no entry holds a line feed and none ends with a carriage
/// return: such entries survive being written one per line.
pub open spec fn plain_entries(entries: Seq<Seq<char>>) -> bool {
    forall|i: int|
        0 <= i < entries.len() ==> no_line_feed(#[trigger] entries[i]) && !(entries[i].len() > 0
            && entries[i].last() == '\r')
}

/// A dictionary written one entry per line, each line ended by a line feed,
/// is read back by `character_dict_lines` as exactly the same entries.
pub proof fn law_dictionary_round_trip(entries: Seq<Seq<char>>)
    requires
        plain_entries(entries),
    ensures
        text_lines(terminated_lines(entries)) == entries,
    decreases entries.len(),
{
    if entries.len() > 0 {
        let first = entries[0];
        let rest = entries.drop_first();
        assert(plain_entries(rest)) by {
            assert forall|i: int| 0 <= i < rest.len() implies no_line_feed(#[trigger] rest[i])
                && !(rest[i].len() > 0 && rest[i].last() == '\r') by {
                assert(rest[i] == entries[i + 1]);
            }
        }
        law_dictionary_round_trip(rest);
        assert(no_line_feed(entries[0]));
        lemma_text_lines_at_line_feed(first, terminated_lines(rest));
        assert(terminated_lines(entries) =~= first + seq!['\n'] + terminated_lines(rest));
        assert(strip_carriage_return(first) == first);
        assert(entries =~= seq![first] + rest);
    }
}

proof fn lemma_first_line_feed_prefix(s: Seq<char>, u: Seq<char>)
    requires
        first_line_feed(s) < s.len(),
    ensures
        first_line_feed(s + u) == first_line_feed(s),
    decreases s.len(),
{
    if s[0] != '\n' {
        assert((s + u).drop_first() =~= s.drop_first() + u);
        lemma_first_line_feed_prefix(s.drop_first(), u);
    }
}

/// The final line ending is optional: a non-empty text that does not already
/// end in a line feed or a carriage return has the same lines with one more
/// line feed appended.
pub proof fn law_final_line_feed_optional(s: Seq<char>)
    requires
        s.len() > 0,
        s.last() != '\n',
        s.last() != '\r',
    ensures
        text_lines(s.push('\n')) == text_lines(s),
    decreases s.len(),
{
    let k = first_line_feed(s);
    lemma_first_line_feed_bound(s);
    if k >= s.len() {
        assert(s =~= s.take(k as int));
        lemma_text_lines_at_line_feed(s, seq![]);
        assert(s + seq!['\n'] + seq![] =~= s.push('\n'));
    } else {
        let t = s.push('\n');
        assert(t =~= s + seq!['\n']);
        lemma_first_line_feed_prefix(s, seq!['\n']);
        assert(t.take(k as int) =~= s.take(k as int));
        let r = s.skip(k + 1 as int);
        assert(r.len() > 0) by {
            if r.len() == 0 {
                assert(k == s.len() - 1);
            }
        }
        assert(t.skip(k + 1 as int) =~= r.push('\n'));
        assert(r.last() == s.last());
        law_final_line_feed_optional(r);
    }
}

/// A line ended by a carriage return and a line feed loses both, whatever
/// it holds: the lines of `t + "\r\n" + rest` are `t` followed by the lines
/// of `rest`, for every line-feed-free `t`.
pub proof fn law_crlf_line(t: Seq<char>, rest: Seq<char>)
    requires
        no_line_feed(t),
    ensures
        text_lines(t + seq!['\r', '\n'] + rest) == seq![t] + text_lines(rest),
{
    let tr = t.push('\r');
    assert(no_line_feed(tr)) by {
        assert forall|i: int| 0 <= i < tr.len() implies tr[i] != '\n' by {
            if i < t.len() {
                assert(tr[i] == t[i]);
            }
        }
    }
    lemma_text_lines_at_line_feed(tr, rest);
    assert(tr + seq!['\n'] + rest =~= t + seq!['\r', '\n'] + rest);
    assert(tr.drop_last() =~= t);
}

/// The text made of `lines`, each followed by a carriage return and a line
/// feed, as files written on Windows are.
pub open spec fn crlf_terminated_lines(lines: Seq<Seq<char>>) -> Seq<char>
    decreases lines.len(),
{
    if lines.len() == 0 {
        seq![]
    } else {
        (lines[0] + seq!['\r', '\n']) + crlf_terminated_lines(lines.drop_first())
    }
}

/// A dictionary written with Windows line endings reads back as exactly the
/// entries written, for entries without line feeds (any other characters,
/// carriage returns included, survive).
pub proof fn law_dictionary_round_trip_crlf(entries: Seq<Seq<char>>)
    requires
        forall|i: int| 0 <= i < entries.len() ==> no_line_feed(#[trigger] entries[i]),
    ensures
        text_lines(crlf_terminated_lines(entries)) == entries,
    decreases entries.len(),
{
    if entries.len() > 0 {
        let first = entries[0];
        let rest = entries.drop_first();
        assert forall|i: int| 0 <= i < rest.len() implies no_line_feed(#[trigger] rest[i]) by {
            assert(rest[i] == entries[i + 1]);
        }
        law_dictionary_round_trip_crlf(rest);
        assert(no_line_feed(entries[0]));
        law_crlf_line(first, crlf_terminated_lines(rest));
        assert(crlf_terminated_lines(entries) =~= first + seq!['\r', '\n'] + crlf_terminated_lines(
            rest,
        ));
        assert(entries =~= seq![first] + rest);
    }
}

} // verus!
