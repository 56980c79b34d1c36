//! Classifying a stream-name expression as one exact stream or as a category
//! wildcard, and building the category read's filter condition.

use vstd::prelude::*;
use crate::literal::{escape_literal, escaped_literal};

verus! {

/// Where a read is addressed.
#[derive(Debug, Clone, PartialEq, Eq)]
pub enum StreamAddress {
    /// One stream, named exactly.
    Exact { name: String },
    /// A category, with the condition that narrows it to the streams whose
    /// names match the wildcard expression.
    Category { name: String, filter_condition: String },
}

/// Why an expression names no address.
#[derive(Debug, Clone, Copy, PartialEq, Eq)]
pub enum AddressError {
    /// A wildcard expression without a `-`, so without a category.
    MissingSeparator,
}

/// The category of a stream name: the text before its first `-`, if any.
pub open spec fn category_of(s: Seq<char>) -> Option<Seq<char>> {
    if s.contains('-') {
        Some(s.take(choose|i: int| 0 <= i < s.len() && s[i] == '-' && !s.take(i).contains('-')))
    } else {
        None
    }
}

/// The expression with each wildcard `*` turned into SQL's `%`.
pub open spec fn wildcard_pattern(s: Seq<char>) -> Seq<char> {
    s.map_values(|c: char| if c == '*' { '%' } else { c })
}

/// The filter that keeps the streams whose names match `pattern`.
pub open spec fn like_condition(pattern: Seq<char>) -> Seq<char> {
    "stream_name like "@ + escaped_literal(pattern)
}

/// Whether `s` holds the character `c`.
pub fn contains_char(s: &str, c: char) -> (found: bool)
    ensures
        found == s@.contains(c),
{
    let mut found = false;
    for d in it: s.chars()
        invariant
            it.seq() == s@,
            found == s@.take(it.index() as int).contains(c),
    {
        let ghost done = s@.take(it.index() as int);
        let ghost next = s@.take(it.index() + 1);
        proof {
            assert(next.contains(c) == (done.contains(c) || d == c)) by {
                if next.contains(c) && d != c {
                    let j = choose|j: int| 0 <= j < next.len() && next[j] == c;
                    assert(done[j] == c);
                }
                if done.contains(c) {
                    let j = choose|j: int| 0 <= j < done.len() && done[j] == c;
                    assert(next[j] == c);
                }
                assert(next[next.len() - 1] == d);
            }
        }
        found = found || d == c;
    }
    assert(s@.take(s@.len() as int) =~= s@);
    found
}

/// The text before the first `-` of `s`, or `None` where `s` has no `-`.
pub fn category_name(s: &str) -> (category: Option<String>)
    ensures
        match category {
            Some(c) => category_of(s@) == Some(c@),
            None => category_of(s@) is None,
        },
{
    let mut prefix = String::new();
    let mut found = false;
    for d in it: s.chars()
        invariant
            it.seq() == s@,
            !prefix@.contains('-'),
            prefix@ == s@.take(prefix@.len() as int),
            prefix@.len() <= it.index(),
            found ==> prefix@.len() < s@.len() && s@[prefix@.len() as int] == '-',
            !found ==> prefix@.len() == it.index(),
    {
        if !found {
            if d == '-' {
                found = true;
            } else {
                let ghost before = prefix@;
                prefix.push(d);
                assert(!prefix@.contains('-')) by {
                    if prefix@.contains('-') {
                        let j = choose|j: int| 0 <= j < prefix@.len() && prefix@[j] == '-';
                        assert(j < before.len());
                        assert(before[j] == '-');
                    }
                }
                assert(prefix@ =~= s@.take(prefix@.len() as int));
            }
        }
    }
    if found {
        let ghost k = prefix@.len() as int;
        assert(s@.contains('-'));
        let ghost i = choose|i: int| 0 <= i < s@.len() && s@[i] == '-' && !s@.take(i).contains('-');
        assert(i == k) by {
            if i < k {
                assert(prefix@[i] == '-');
            } else if i > k {
                assert(s@.take(i)[k] == '-');
            }
        }
        Some(prefix)
    } else {
        assert(!s@.contains('-')) by {
            assert(prefix@ =~= s@);
        }
        None
    }
}

/// `s` with every `*` replaced by `%`.
pub fn to_wildcard_pattern(s: &str) -> (pattern: String)
    ensures
        pattern@ == wildcard_pattern(s@),
{
    let mut pattern = String::new();
    for d in it: s.chars()
        invariant
            it.seq() == s@,
            pattern@ == wildcard_pattern(s@.take(it.index() as int)),
    {
        let ghost next = s@.take(it.index() + 1);
        if d == '*' {
            pattern.push('%');
        } else {
            pattern.push(d);
        }
        assert(pattern@ =~= wildcard_pattern(next));
    }
    assert(s@.take(s@.len() as int) =~= s@);
    pattern
}

/// The filter condition `stream_name like <literal>` for `pattern`, with the
/// pattern escaped as a SQL literal.
pub fn like_filter(pattern: &str) -> (condition: String)
    ensures
        condition@ == like_condition(pattern@),
{
    let mut condition = String::from_str("stream_name like ");
    let escaped = escape_literal(pattern);
    condition.append(escaped.as_str());
    condition
}

/// Resolves a stream-name expression. With a `*` it addresses the category
/// before the first `-`, narrowed by a `like` filter on the expression with
/// `*` read as `%`; a wildcard expression without `-` is an error. Without
/// a `*` it addresses the stream of that exact name.
pub fn resolve_stream_address(expression: &str) -> (address: Result<StreamAddress, AddressError>)
    ensures
        !expression@.contains('*') ==> (address matches Ok(StreamAddress::Exact { name })
            && name@ == expression@),
        expression@.contains('*') && category_of(expression@) is None ==> address == Err::<
            StreamAddress,
            AddressError,
        >(AddressError::MissingSeparator),
        expression@.contains('*') && category_of(expression@) is Some ==> (address matches Ok(
            StreamAddress::Category { name, filter_condition },
        ) && name@ == category_of(expression@)->0 && filter_condition@ == like_condition(
            wildcard_pattern(expression@),
        )),
{
    if contains_char(expression, '*') {
        match category_name(expression) {
            Some(name) => {
                let pattern = to_wildcard_pattern(expression);
                let filter_condition = like_filter(pattern.as_str());
                Ok(StreamAddress::Category { name, filter_condition })
            },
            None => Err(AddressError::MissingSeparator),
        }
    } else {
        Ok(StreamAddress::Exact { name: String::from_str(expression) })
    }
}

} // verus!
