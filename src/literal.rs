//! Turning arbitrary text into a SQL string literal that the database reads
//! back as exactly that text.

use vstd::prelude::*;

verus! {

/// What one character of the input becomes inside the quotes: quotes and
/// backslashes are doubled, every other character is copied.
pub open spec fn doubled(c: char) -> Seq<char> {
    if c == '\'' || c == '\\' {
        seq![c, c]
    } else {
        seq![c]
    }
}

/// The body of the literal: each character of `s` in turn, doubled where special.
pub open spec fn double_specials(s: Seq<char>) -> Seq<char>
    decreases s.len(),
{
    if s.len() == 0 {
        Seq::empty()
    } else {
        double_specials(s.drop_last()) + doubled(s.last())
    }
}

/// The literal that denotes `s`: the doubled body between single quotes,
/// marked as an escape string (`E`) when `s` holds a backslash.
pub open spec fn escaped_literal(s: Seq<char>) -> Seq<char> {
    let quoted = seq!['\''] + double_specials(s) + seq!['\''];
    if s.contains('\\') {
        seq!['E'] + quoted
    } else {
        quoted
    }
}

/// How the database reads the body of a quoted literal. A quote inside the
/// body must be doubled (a lone one would end the literal early); in an escape
/// string a backslash takes the next character literally (only `\\` and `\'`
/// are modelled). `None` where the body is not one whole literal body.
pub open spec fn unquote_body(body: Seq<char>, escapes: bool) -> Option<Seq<char>>
    decreases body.len(),
{
    if body.len() == 0 {
        Some(Seq::empty())
    } else if body[0] == '\'' || (escapes && body[0] == '\\') {
        if body.len() >= 2 && (body[1] == '\'' || (body[0] == '\\' && body[1] == '\\')) {
            match unquote_body(body.subrange(2, body.len() as int), escapes) {
                Some(t) => Some(seq![body[1]] + t),
                None => None,
            }
        } else {
            None
        }
    } else {
        match unquote_body(body.subrange(1, body.len() as int), escapes) {
            Some(t) => Some(seq![body[0]] + t),
            None => None,
        }
    }
}

/// The text that a whole literal token denotes: `'...'` is a standard string,
/// `E'...'` an escape string.
pub open spec fn parse_literal(lit: Seq<char>) -> Option<Seq<char>> {
    if lit.len() >= 3 && lit[0] == 'E' && lit[1] == '\'' && lit.last() == '\'' {
        unquote_body(lit.subrange(2, lit.len() - 1), true)
    } else if lit.len() >= 2 && lit[0] == '\'' && lit.last() == '\'' {
        unquote_body(lit.subrange(1, lit.len() - 1), false)
    } else {
        None
    }
}

proof fn lemma_double_specials_first(s: Seq<char>)
    requires
        s.len() > 0,
    ensures
        double_specials(s) == doubled(s[0]) + double_specials(s.drop_first()),
    decreases s.len(),
{
    if s.len() == 1 {
        assert(s.drop_last() =~= Seq::<char>::empty());
        assert(s.drop_first() =~= Seq::<char>::empty());
        assert(double_specials(s) =~= doubled(s[0]) + double_specials(s.drop_first()));
    } else {
        lemma_double_specials_first(s.drop_last());
        assert(s.drop_first().drop_last() =~= s.drop_last().drop_first());
        assert(s.drop_first().last() == s.last());
        assert(double_specials(s) =~= doubled(s[0]) + double_specials(s.drop_first()));
    }
}

proof fn lemma_unquote_doubled(s: Seq<char>, escapes: bool)
    requires
        escapes || !s.contains('\\'),
    ensures
        unquote_body(double_specials(s), escapes) == Some(s),
    decreases s.len(),
{
    if s.len() == 0 {
        assert(double_specials(s) =~= Seq::<char>::empty());
    } else {
        let rest = s.drop_first();
        assert(!s.contains('\\') ==> !rest.contains('\\')) by {
            if rest.contains('\\') {
                let j = choose|j: int| 0 <= j < rest.len() && rest[j] == '\\';
                assert(s[j + 1] == '\\');
            }
        }
        lemma_double_specials_first(s);
        lemma_unquote_doubled(rest, escapes);
        let d = double_specials(s);
        let c = s[0];
        assert(s =~= seq![c] + rest);
        if c == '\'' || c == '\\' {
            assert(d.subrange(2, d.len() as int) =~= double_specials(rest));
        } else {
            assert(d.subrange(1, d.len() as int) =~= double_specials(rest));
        }
    }
}

/// Escaping any text and having the database read the literal back gives the
/// text itself: the input cannot end the literal early, and quotes and
/// backslashes survive intact.
pub proof fn lemma_escape_round_trip(s: Seq<char>)
    ensures
        parse_literal(escaped_literal(s)) == Some(s),
{
    let lit = escaped_literal(s);
    let body = double_specials(s);
    lemma_unquote_doubled(s, s.contains('\\'));
    if s.contains('\\') {
        assert(lit.subrange(2, lit.len() - 1) =~= body);
    } else {
        assert(lit.subrange(1, lit.len() - 1) =~= body);
    }
}

/// Relies on `String::push`: the character is appended at the end.
pub assume_specification[ String::push ](s: &mut String, ch: char)
    ensures
        final(s)@ == old(s)@.push(ch),
;

/// Writes `string` as a SQL string literal: wrapped in single quotes, quotes
/// and backslashes doubled, and prefixed with `E` when a backslash occurs.
pub fn escape_literal(string: &str) -> (escaped: String)
    ensures
        escaped@ == escaped_literal(string@),
{
    let mut escaped = String::new();
    escaped.push('\'');
    let mut has_backslash = false;
    for c in it: string.chars()
        invariant
            it.seq() == string@,
            escaped@ == seq!['\''] + double_specials(string@.take(it.index() as int)),
            has_backslash == string@.take(it.index() as int).contains('\\'),
    {
        let ghost done = string@.take(it.index() as int);
        let ghost next = string@.take(it.index() + 1);
        proof {
            assert(next.drop_last() =~= done);
            assert(next.last() == c);
            assert(next.contains('\\') == (done.contains('\\') || c == '\\')) by {
                if next.contains('\\') && c != '\\' {
                    let j = choose|j: int| 0 <= j < next.len() && next[j] == '\\';
                    assert(done[j] == '\\');
                }
                if done.contains('\\') {
                    let j = choose|j: int| 0 <= j < done.len() && done[j] == '\\';
                    assert(next[j] == '\\');
                }
            }
        }
        if c == '\'' || c == '\\' {
            escaped.push(c);
            escaped.push(c);
            if c == '\\' {
                has_backslash = true;
            }
        } else {
            escaped.push(c);
        }
        assert(escaped@ =~= seq!['\''] + double_specials(next));
    }
    escaped.push('\'');
    assert(string@.take(string@.len() as int) =~= string@);
    if has_backslash {
        let mut marked = String::new();
        marked.push('E');
        marked.append(escaped.as_str());
        assert(marked@ =~= escaped_literal(string@));
        marked
    } else {
        assert(escaped@ =~= escaped_literal(string@));
        escaped
    }
}

} // verus!
