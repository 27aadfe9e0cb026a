//! Path templates: `{name}` placeholders, their count, and the
//! position-based substitution the client performs.

use vstd::prelude::*;

use crate::model::{first_match, is_first, lemma_first_match_at, lemma_first_match_none};

verus! {

/// A closing brace.
pub open spec fn is_close() -> spec_fn(char) -> bool {
    |c: char| c == '}'
}

/// The position of the first `}` of `t`, if any.
pub open spec fn closing(t: Seq<char>) -> Option<int> {
    first_match(t, is_close())
}

/// `t` starts with a placeholder: a `{` that a later `}` closes.
pub open spec fn starts_placeholder(t: Seq<char>) -> bool {
    t.len() > 0 && t[0] == '{' && closing(t) is Some
}

pub proof fn lemma_closing_bounds(t: Seq<char>)
    requires
        starts_placeholder(t),
    ensures
        0 < closing(t)->Some_0 < t.len(),
{
    let j = choose|j: int| is_first(t, j, is_close());
    assert(is_first(t, j, is_close()));
}

/// The number of placeholders of a template.
pub open spec fn placeholders(t: Seq<char>) -> nat
    decreases t.len(),
{
    if t.len() == 0 {
        0
    } else if starts_placeholder(t) {
        proof {
            lemma_closing_bounds(t);
        }
        1 + placeholders(t.skip(closing(t)->Some_0 + 1))
    } else {
        placeholders(t.drop_first())
    }
}

/// The template with its placeholders replaced, from left to right, by the
/// values in order; placeholders beyond the last value stay as written.
pub open spec fn fill(t: Seq<char>, vals: Seq<Seq<char>>) -> Seq<char>
    decreases t.len(),
{
    if t.len() == 0 {
        Seq::empty()
    } else if starts_placeholder(t) && vals.len() > 0 {
        proof {
            lemma_closing_bounds(t);
        }
        vals[0] + fill(t.skip(closing(t)->Some_0 + 1), vals.drop_first())
    } else {
        seq![t[0]] + fill(t.drop_first(), vals)
    }
}

/// The literal text around the placeholders: before the first, between
/// each two, and after the last.
pub open spec fn literals(t: Seq<char>) -> Seq<Seq<char>>
    decreases t.len(),
{
    if t.len() == 0 {
        seq![Seq::empty()]
    } else if starts_placeholder(t) {
        proof {
            lemma_closing_bounds(t);
        }
        seq![Seq::<char>::empty()] + literals(t.skip(closing(t)->Some_0 + 1))
    } else {
        let rest = literals(t.drop_first());
        rest.update(0, seq![t[0]] + rest[0])
    }
}

/// The literal pieces with the values set between them.
pub open spec fn interleave(lits: Seq<Seq<char>>, vals: Seq<Seq<char>>) -> Seq<char>
    decreases vals.len(),
{
    if vals.len() == 0 || lits.len() == 0 {
        if lits.len() > 0 {
            lits[0]
        } else {
            Seq::empty()
        }
    } else {
        lits[0] + vals[0] + interleave(lits.drop_first(), vals.drop_first())
    }
}

proof fn lemma_literals_len(t: Seq<char>)
    ensures
        literals(t).len() == placeholders(t) + 1,
    decreases t.len(),
{
    if t.len() > 0 {
        if starts_placeholder(t) {
            lemma_closing_bounds(t);
            lemma_literals_len(t.skip(closing(t)->Some_0 + 1));
        } else {
            lemma_literals_len(t.drop_first());
        }
    }
}

/// A template with k placeholders, filled with k values, is its literal
/// text with the i-th value standing where the i-th placeholder stood:
/// each value takes the place of the placeholder of the same rank.
pub proof fn lemma_fill_in_order(t: Seq<char>, vals: Seq<Seq<char>>)
    requires
        placeholders(t) == vals.len(),
    ensures
        literals(t).len() == vals.len() + 1,
        fill(t, vals) == interleave(literals(t), vals),
    decreases t.len(),
{
    lemma_literals_len(t);
    if t.len() == 0 {
    } else if starts_placeholder(t) {
        lemma_closing_bounds(t);
        let rest = t.skip(closing(t)->Some_0 + 1);
        lemma_fill_in_order(rest, vals.drop_first());
        assert((seq![Seq::<char>::empty()] + literals(rest)).drop_first() =~= literals(rest));
        assert(Seq::<char>::empty() + vals[0] =~= vals[0]);
    } else {
        let rest = t.drop_first();
        lemma_fill_in_order(rest, vals);
        let lr = literals(rest);
        let l = lr.update(0, seq![t[0]] + lr[0]);
        assert(l.drop_first() =~= lr.drop_first());
        if vals.len() > 0 {
            assert(seq![t[0]] + (lr[0] + vals[0] + interleave(lr.drop_first(), vals.drop_first()))
                =~= (seq![t[0]] + lr[0]) + vals[0] + interleave(lr.drop_first(), vals.drop_first()));
        }
    }
}

/// The position of the first `}` after the `{` at position `i`.
fn find_close(template: &str, i: usize, n: usize) -> (r: Option<usize>)
    requires
        n == template@.len(),
        i < n,
        template@[i as int] == '{',
    ensures
        match r {
            Some(j) => i < j < n && closing(template@.skip(i as int)) == Some(j - i),
            None => closing(template@.skip(i as int)) is None,
        },
{
    let ghost rest = template@.skip(i as int);
    let mut j: usize = i + 1;
    while j < n
        invariant
            n == template@.len(),
            i < j <= n,
            rest == template@.skip(i as int),
            forall|q: int| 0 <= q < j - i ==> !is_close()(#[trigger] rest[q]),
        decreases n - j,
    {
        if template.get_char(j) == '}' {
            proof {
                assert(is_first(rest, j - i, is_close()));
                lemma_first_match_at(rest, j - i, is_close());
            }
            return Some(j);
        }
        j = j + 1;
    }
    proof {
        lemma_first_match_none(rest, is_close());
    }
    None
}

/// Substitutes the values, in order, for the placeholders of a template.
pub fn fill_path(template: &str, values: &Vec<String>) -> (r: String)
    ensures
        r@ == fill(template@, values@.map_values(|v: String| v@)),
{
    let ghost t = template@;
    let ghost vals = values@.map_values(|v: String| v@);
    let n = template.unicode_len();
    let mut out = String::new();
    let mut i: usize = 0;
    let mut k: usize = 0;
    assert(t.skip(0) =~= t);
    assert(vals.skip(0) =~= vals);
    while i < n
        invariant
            n == t.len(),
            t == template@,
            vals == values@.map_values(|v: String| v@),
            i <= n,
            k <= values@.len(),
            out@ + fill(t.skip(i as int), vals.skip(k as int)) == fill(t, vals),
        decreases n - i,
    {
        let ghost rest = t.skip(i as int);
        let c = template.get_char(i);
        let close: Option<usize> = if c == '{' && k < values.len() {
            find_close(template, i, n)
        } else {
            None
        };
        proof {
            if c == '{' && k < values.len() {
                assert(rest[0] == c);
                if close is None {
                    assert(!starts_placeholder(rest));
                }
            }
        }
        match close {
            Some(j) => {
                proof {
                    assert(starts_placeholder(rest));
                    assert(vals.skip(k as int).len() > 0);
                    assert(vals.skip(k as int)[0] == values@[k as int]@);
                    assert(vals.skip(k as int).drop_first() =~= vals.skip(k + 1));
                    assert(rest.skip(j - i + 1) =~= t.skip(j + 1));
                }
                out.append(values[k].as_str());
                i = j + 1;
                k = k + 1;
            },
            None => {
                let piece = template.substring_char(i, i + 1);
                proof {
                    assert(!(starts_placeholder(rest) && vals.skip(k as int).len() > 0));
                    assert(rest.drop_first() =~= t.skip(i + 1));
                    assert(piece@ =~= seq![rest[0]]);
                }
                out.append(piece);
                i = i + 1;
            },
        }
    }
    assert(t.skip(n as int) =~= Seq::<char>::empty());
    out
}

/// The number of placeholders of a template.
pub fn count_placeholders(template: &str) -> (r: usize)
    ensures
        r == placeholders(template@),
{
    let ghost t = template@;
    let n = template.unicode_len();
    let mut count: usize = 0;
    let mut i: usize = 0;
    assert(t.skip(0) =~= t);
    while i < n
        invariant
            n == t.len(),
            t == template@,
            i <= n,
            count <= i,
            count + placeholders(t.skip(i as int)) == placeholders(t),
        decreases n - i,
    {
        let ghost rest = t.skip(i as int);
        let c = template.get_char(i);
        let close: Option<usize> = if c == '{' {
            find_close(template, i, n)
        } else {
            None
        };
        proof {
            assert(rest[0] == c);
            if c == '{' && close is None {
                assert(!starts_placeholder(rest));
            }
        }
        match close {
            Some(j) => {
                proof {
                    assert(starts_placeholder(rest));
                    assert(rest.skip(j - i + 1) =~= t.skip(j + 1));
                }
                count = count + 1;
                i = j + 1;
            },
            None => {
                proof {
                    assert(!starts_placeholder(rest));
                    assert(rest.drop_first() =~= t.skip(i + 1));
                }
                i = i + 1;
            },
        }
    }
    assert(t.skip(n as int) =~= Seq::<char>::empty());
    count
}

} // verus!
