//! Reading placeholders back out of rendered text, and the facts that tie
//! the placeholders of a statement to the values bound for it.

use crate::fragment::{closing, expand, markers, wrap};
use crate::prelude::comparison;
use crate::text::{decimal, digit_char, join, list_clause, placeholder, present};
use vstd::prelude::*;

verus! {

/// `c` is a decimal digit.
pub open spec fn is_digit(c: char) -> bool {
    '0' <= c && c <= '9'
}

/// The value of the decimal digit `c`.
pub open spec fn digit_value(c: char) -> nat {
    (c as int - '0' as int) as nat
}

/// The number of decimal digits at the start of `s`.
pub open spec fn digit_run(s: Seq<char>) -> nat
    decreases s.len(),
{
    if s.len() > 0 && is_digit(s[0]) {
        1 + digit_run(s.drop_first())
    } else {
        0
    }
}

/// The number written by the digits `s`.
pub open spec fn digits_value(s: Seq<char>) -> nat
    decreases s.len(),
{
    if s.len() == 0 {
        0
    } else {
        digits_value(s.drop_last()) * 10 + digit_value(s.last())
    }
}

/// The indices of the placeholders in `s`, left to right: each `$` with the
/// number that the digits right after it write.
pub open spec fn placeholders(s: Seq<char>) -> Seq<nat>
    decreases s.len(),
{
    if s.len() == 0 {
        Seq::empty()
    } else if s[0] == '$' {
        let d = digit_run(s.drop_first());
        if 1 + d <= s.len() {
            seq![digits_value(s.subrange(1, 1 + d as int))] + placeholders(
                s.subrange(1 + d as int, s.len() as int),
            )
        } else {
            Seq::empty()
        }
    } else {
        placeholders(s.drop_first())
    }
}

/// `s` holds no `$`.
pub open spec fn no_dollar(s: Seq<char>) -> bool {
    forall|i: int| 0 <= i < s.len() ==> s[i] != '$'
}

/// `s` ends inside a placeholder: a `$` followed by digits only.
pub open spec fn ends_open(s: Seq<char>) -> bool
    decreases s.len(),
{
    s.len() > 0 && (s.last() == '$' || (is_digit(s.last()) && ends_open(s.drop_last())))
}

/// The `count` consecutive indices from `first` on.
pub open spec fn index_range(first: nat, count: nat) -> Seq<nat> {
    Seq::new(count, |i: int| (first + i) as nat)
}

pub proof fn lemma_digit_run_bound(s: Seq<char>)
    ensures
        digit_run(s) <= s.len(),
        forall|i: int| 0 <= i < digit_run(s) ==> is_digit(#[trigger] s[i]),
        digit_run(s) < s.len() ==> !is_digit(s[digit_run(s) as int]),
    decreases s.len(),
{
    if s.len() > 0 && is_digit(s[0]) {
        lemma_digit_run_bound(s.drop_first());
        assert forall|i: int| 0 <= i < digit_run(s) implies is_digit(#[trigger] s[i]) by {
            if i > 0 {
                assert(s[i] == s.drop_first()[i - 1]);
            }
        }
    }
}

pub proof fn lemma_digit_run_all(s: Seq<char>)
    requires
        forall|i: int| 0 <= i < s.len() ==> is_digit(#[trigger] s[i]),
    ensures
        digit_run(s) == s.len(),
    decreases s.len(),
{
    if s.len() > 0 {
        lemma_digit_run_all(s.drop_first());
    }
}

pub proof fn lemma_digit_char(d: nat)
    requires
        d < 10,
    ensures
        is_digit(digit_char(d)),
        digit_value(digit_char(d)) == d,
{
    let t = seq!['0', '1', '2', '3', '4', '5', '6', '7', '8', '9'];
    assert(t[0] == '0' && t[1] == '1' && t[2] == '2' && t[3] == '3' && t[4] == '4');
    assert(t[5] == '5' && t[6] == '6' && t[7] == '7' && t[8] == '8' && t[9] == '9');
}

/// `decimal(n)` is a non-empty run of digits that reads back as `n`.
pub proof fn lemma_decimal(n: nat)
    ensures
        decimal(n).len() > 0,
        forall|i: int| 0 <= i < decimal(n).len() ==> is_digit(#[trigger] decimal(n)[i]),
        digits_value(decimal(n)) == n,
    decreases n,
{
    lemma_digit_char(n % 10);
    if n >= 10 {
        lemma_decimal(n / 10);
        let s = decimal(n);
        assert(s.drop_last() == decimal(n / 10));
        assert(s.last() == digit_char(n % 10));
        assert(digits_value(s) == digits_value(decimal(n / 10)) * 10 + digit_value(s.last()));
        assert((n / 10) * 10 + n % 10 == n);
        assert forall|i: int| 0 <= i < s.len() implies is_digit(#[trigger] s[i]) by {
            if i < s.len() - 1 {
                assert(s[i] == decimal(n / 10)[i]);
            }
        }
    } else {
        assert(decimal(n).drop_last() =~= Seq::<char>::empty());
        assert(digits_value(decimal(n)) == digits_value(Seq::<char>::empty()) * 10 + digit_value(
            digit_char(n),
        ));
    }
}

/// The placeholder text `$n` reads back as the one index `n`.
pub proof fn lemma_placeholder(n: nat)
    ensures
        placeholders(placeholder(n)) == seq![n],
        !is_digit(placeholder(n)[0]),
        ends_open(placeholder(n)),
{
    let s = placeholder(n);
    lemma_decimal(n);
    assert(s.drop_first() == decimal(n));
    lemma_digit_run_all(decimal(n));
    assert(s.subrange(1, 1 + decimal(n).len() as int) == decimal(n));
    assert(s.subrange(1 + decimal(n).len() as int, s.len() as int) =~= Seq::<char>::empty());
    assert(placeholders(s) == seq![n] + placeholders(Seq::<char>::empty()));
    lemma_open_digits(seq!['$'], decimal(n));
}

proof fn lemma_open_digits(a: Seq<char>, b: Seq<char>)
    requires
        ends_open(a),
        forall|i: int| 0 <= i < b.len() ==> is_digit(#[trigger] b[i]),
    ensures
        ends_open(a + b),
    decreases b.len(),
{
    if b.len() > 0 {
        lemma_open_digits(a, b.drop_last());
        assert((a + b).drop_last() == a + b.drop_last());
    } else {
        assert(a + b == a);
    }
}

proof fn lemma_digit_run_exact(s: Seq<char>, d: nat)
    requires
        d <= s.len(),
        forall|i: int| 0 <= i < d ==> is_digit(#[trigger] s[i]),
        d < s.len() ==> !is_digit(s[d as int]),
    ensures
        digit_run(s) == d,
    decreases d,
{
    if d > 0 {
        assert(is_digit(s[0]));
        assert forall|i: int| 0 <= i < d - 1 implies is_digit(#[trigger] s.drop_first()[i]) by {
            assert(s.drop_first()[i] == s[i + 1]);
        }
        lemma_digit_run_exact(s.drop_first(), (d - 1) as nat);
    }
}

proof fn lemma_suffix_not_open(a: Seq<char>, k: int)
    requires
        0 <= k <= a.len(),
        !ends_open(a),
    ensures
        !ends_open(a.subrange(k, a.len() as int)),
    decreases a.len(),
{
    let r = a.subrange(k, a.len() as int);
    if r.len() > 0 {
        assert(r.last() == a.last());
        if is_digit(r.last()) {
            assert(r.drop_last() == a.drop_last().subrange(k, a.len() - 1));
            lemma_suffix_not_open(a.drop_last(), k);
        }
    }
}

/// The placeholders of a concatenation are those of its parts, unless the
/// first part ends inside a placeholder and the second starts with a digit.
pub proof fn lemma_concat(a: Seq<char>, b: Seq<char>)
    requires
        !ends_open(a) || b.len() == 0 || !is_digit(b[0]),
    ensures
        placeholders(a + b) == placeholders(a) + placeholders(b),
    decreases a.len(),
{
    let ab = a + b;
    if a.len() == 0 {
        assert(ab == b);
    } else if a[0] == '$' {
        let x = a.drop_first();
        let d = digit_run(x);
        lemma_digit_run_bound(x);
        assert(ab.drop_first() == x + b);
        if d == x.len() {
            assert(a == seq!['$'] + x);
            assert(ends_open(seq!['$']));
            lemma_open_digits(seq!['$'], x);
        }
        assert forall|i: int| 0 <= i < d implies is_digit(#[trigger] (x + b)[i]) by {
            assert((x + b)[i] == x[i]);
        }
        lemma_digit_run_exact(x + b, d);
        let rest = a.subrange(1 + d as int, a.len() as int);
        assert(ab.subrange(1, 1 + d as int) == a.subrange(1, 1 + d as int));
        assert(ab.subrange(1 + d as int, ab.len() as int) == rest + b);
        if !ends_open(a) {
            lemma_suffix_not_open(a, 1 + d as int);
        }
        lemma_concat(rest, b);
        assert(placeholders(ab) == seq![digits_value(a.subrange(1, 1 + d as int))] + placeholders(
            rest + b,
        ));
    } else {
        assert(ab.drop_first() == a.drop_first() + b);
        if !ends_open(a) {
            lemma_suffix_not_open(a, 1);
            assert(a.subrange(1, a.len() as int) == a.drop_first());
        }
        lemma_concat(a.drop_first(), b);
    }
}

/// Text without `$` holds no placeholder.
pub proof fn lemma_no_dollar(s: Seq<char>)
    requires
        no_dollar(s),
    ensures
        placeholders(s) == Seq::<nat>::empty(),
        !ends_open(s),
    decreases s.len(),
{
    if s.len() > 0 {
        assert(s[0] != '$');
        assert forall|i: int| 0 <= i < s.drop_first().len() implies s.drop_first()[i] != '$' by {
            assert(s.drop_first()[i] == s[i + 1]);
        }
        lemma_no_dollar(s.drop_first());
        assert forall|i: int| 0 <= i < s.drop_last().len() implies s.drop_last()[i] != '$' by {
            assert(s.drop_last()[i] == s[i]);
        }
        lemma_no_dollar(s.drop_last());
        assert(s.last() == s[s.len() - 1]);
    }
}

/// The placeholders of each of `parts`, one part after the other.
pub open spec fn all_placeholders(parts: Seq<Seq<char>>) -> Seq<nat>
    decreases parts.len(),
{
    if parts.len() == 0 {
        Seq::empty()
    } else {
        all_placeholders(parts.drop_last()) + placeholders(parts.last())
    }
}

/// A separator that cannot run into a placeholder on either side.
pub open spec fn quiet_separator(sep: Seq<char>) -> bool {
    &&& sep.len() > 0
    &&& no_dollar(sep)
    &&& !is_digit(sep[0])
    &&& !is_digit(sep.last())
}

/// A fragment with no `$` of its own and no digit right after a marker.
pub open spec fn plain_fragment(s: Seq<char>) -> bool {
    &&& no_dollar(s)
    &&& forall|i: int| 0 <= i < s.len() - 1 && s[i] == '?' ==> !is_digit(#[trigger] s[i + 1])
}

/// Function names and trailing arguments that hold no `$`.
pub open spec fn plain_calls(fns: Seq<&str>, args: Seq<Option<&str>>) -> bool {
    &&& forall|i: int| 0 <= i < fns.len() ==> no_dollar(#[trigger] fns[i]@)
    &&& forall|i: int| 0 <= i < args.len() && #[trigger] args[i] is Some ==> no_dollar(args[i]->0@)
}

pub proof fn lemma_all_concat(a: Seq<Seq<char>>, b: Seq<Seq<char>>)
    ensures
        all_placeholders(a + b) == all_placeholders(a) + all_placeholders(b),
    decreases b.len(),
{
    if b.len() == 0 {
        assert(a + b == a);
    } else {
        assert((a + b).drop_last() == a + b.drop_last());
        lemma_all_concat(a, b.drop_last());
    }
}

/// The placeholders of joined parts are those of each part in turn.
pub proof fn lemma_join(parts: Seq<Seq<char>>, sep: Seq<char>)
    requires
        quiet_separator(sep),
    ensures
        placeholders(join(parts, sep)) == all_placeholders(parts),
    decreases parts.len(),
{
    if parts.len() == 1 {
        assert(parts.drop_last() == Seq::<Seq<char>>::empty());
        assert(parts.last() == parts[0]);
        assert(all_placeholders(parts) == all_placeholders(Seq::<Seq<char>>::empty())
            + placeholders(parts[0]));
    } else if parts.len() > 1 {
        let init = join(parts.drop_last(), sep);
        lemma_join(parts.drop_last(), sep);
        lemma_no_dollar(sep);
        lemma_concat(init, sep);
        assert((init + sep).last() == sep[sep.len() - 1]);
        assert(!ends_open(init + sep));
        lemma_concat(init + sep, parts.last());
    }
}

/// Text between a prefix and a suffix without `$` keeps its placeholders,
/// provided the suffix does not start with a digit.
pub proof fn lemma_enclosed(pre: Seq<char>, mid: Seq<char>, post: Seq<char>)
    requires
        no_dollar(pre),
        no_dollar(post),
        post.len() == 0 || !is_digit(post[0]),
    ensures
        placeholders(pre + mid + post) == placeholders(mid),
{
    lemma_no_dollar(pre);
    lemma_no_dollar(post);
    lemma_concat(pre, mid);
    lemma_concat(pre + mid, post);
}

pub proof fn lemma_no_dollar_concat(a: Seq<char>, b: Seq<char>)
    requires
        no_dollar(a),
        no_dollar(b),
    ensures
        no_dollar(a + b),
{
    assert forall|i: int| 0 <= i < (a + b).len() implies (a + b)[i] != '$' by {
        if i < a.len() {
            assert((a + b)[i] == a[i]);
        } else {
            assert((a + b)[i] == b[i - a.len()]);
        }
    }
}

pub proof fn lemma_no_dollar_join(parts: Seq<Seq<char>>, sep: Seq<char>)
    requires
        no_dollar(sep),
        forall|i: int| 0 <= i < parts.len() ==> no_dollar(#[trigger] parts[i]),
    ensures
        no_dollar(join(parts, sep)),
    decreases parts.len(),
{
    if parts.len() > 1 {
        lemma_no_dollar_join(parts.drop_last(), sep);
        lemma_no_dollar_concat(join(parts.drop_last(), sep), sep);
        lemma_no_dollar_concat(join(parts.drop_last(), sep) + sep, parts.last());
    }
}

/// Parts without `$` hold no placeholder between them.
pub proof fn lemma_all_plain(parts: Seq<Seq<char>>)
    requires
        forall|i: int| 0 <= i < parts.len() ==> no_dollar(#[trigger] parts[i]),
    ensures
        all_placeholders(parts) == Seq::<nat>::empty(),
    decreases parts.len(),
{
    if parts.len() > 0 {
        lemma_all_plain(parts.drop_last());
        lemma_no_dollar(parts.last());
    }
}

/// The placeholders of an expanded fragment are the consecutive indices
/// from `first` on, one per marker.
pub proof fn lemma_expand(s: Seq<char>, first: nat)
    requires
        plain_fragment(s),
    ensures
        placeholders(expand(s, first)) == index_range(first, markers(s)),
        ends_open(expand(s, first)) ==> s.len() > 0 && s.last() == '?',
    decreases s.len(),
{
    if s.len() == 0 {
        assert(index_range(first, 0) =~= Seq::<nat>::empty());
    } else {
        let init = s.drop_last();
        let c = s.last();
        assert forall|i: int| 0 <= i < init.len() - 1 && init[i] == '?' implies !is_digit(
            #[trigger] init[i + 1],
        ) by {
            assert(init[i] == s[i] && init[i + 1] == s[i + 1]);
        }
        assert(c == s[s.len() - 1]);
        lemma_expand(init, first);
        assert(s == init.push(c));
        if c == '?' {
            lemma_expand_marker(init, first);
        } else {
            if is_digit(c) && init.len() > 0 {
                assert(init.last() == s[s.len() - 2]);
                assert(s[(s.len() - 2) + 1] == c);
            }
            lemma_expand_other(init, first, c);
        }
    }
}

proof fn lemma_expand_marker(init: Seq<char>, first: nat)
    requires
        placeholders(expand(init, first)) == index_range(first, markers(init)),
    ensures
        placeholders(expand(init.push('?'), first)) == index_range(first, markers(init.push('?'))),
{
    let s = init.push('?');
    assert(s.drop_last() == init);
    let e = expand(init, first);
    let m = markers(init);
    let k = first + m;
    lemma_placeholder(k);
    lemma_concat(e, placeholder(k));
    assert(index_range(first, m) + seq![k] =~= index_range(first, m + 1));
}

proof fn lemma_expand_other(init: Seq<char>, first: nat, c: char)
    requires
        c != '?',
        c != '$',
        placeholders(expand(init, first)) == index_range(first, markers(init)),
        is_digit(c) ==> !ends_open(expand(init, first)),
    ensures
        placeholders(expand(init.push(c), first)) == index_range(first, markers(init.push(c))),
        !ends_open(expand(init.push(c), first)),
{
    let s = init.push(c);
    assert(s.drop_last() == init);
    let e = expand(init, first);
    assert(e.push(c) == e + seq![c]);
    lemma_concat(e, seq![c]);
    lemma_no_dollar(seq![c]);
    assert((e + seq![c]).drop_last() == e);
}

/// Wrapping text in function calls without `$` keeps its placeholders.
pub proof fn lemma_wrap(fns: Seq<&str>, args: Seq<Option<&str>>, inner: Seq<char>)
    requires
        plain_calls(fns, args),
    ensures
        placeholders(wrap(fns, args, inner)) == placeholders(inner),
    decreases fns.len(),
{
    if fns.len() > 0 {
        let arg = if args.len() > 0 {
            args.last()
        } else {
            None
        };
        let rest = if args.len() > 0 {
            args.drop_last()
        } else {
            args
        };
        let f = fns.last()@;
        reveal_strlit("(");
        reveal_strlit(")");
        reveal_strlit(", ");
        assert(no_dollar(f)) by {
            assert(fns.last() == fns[fns.len() - 1]);
        }
        lemma_no_dollar_concat(f, "("@);
        let c = closing(arg);
        match arg {
            Some(a) => {
                assert(no_dollar(a@)) by {
                    assert(args.last() == args[args.len() - 1]);
                }
                lemma_no_dollar_concat(", "@, a@);
                lemma_no_dollar_concat(", "@ + a@, ")"@);
                assert(c[0] == ',');
            },
            None => {},
        }
        lemma_enclosed(f + "("@, inner, c);
        let next = f + "("@ + inner + c;
        assert forall|i: int| 0 <= i < fns.drop_last().len() implies no_dollar(
            #[trigger] fns.drop_last()[i]@,
        ) by {
            assert(fns.drop_last()[i] == fns[i]);
        }
        assert forall|i: int| 0 <= i < rest.len() && #[trigger] rest[i] is Some implies no_dollar(
            rest[i]->0@,
        ) by {
            assert(rest[i] == args[i]);
        }
        lemma_wrap(fns.drop_last(), rest, next);
    }
}

/// Every one of `parts` holds no `$`.
pub open spec fn all_plain(parts: Seq<Seq<char>>) -> bool {
    forall|i: int| 0 <= i < parts.len() ==> no_dollar(#[trigger] parts[i])
}

pub proof fn lemma_present_single(x: Seq<char>)
    ensures
        all_placeholders(present(Some(x))) == placeholders(x),
{
    let p = present(Some(x));
    assert(p == seq![x]);
    assert(p.drop_last() == Seq::<Seq<char>>::empty());
    assert(p.last() == x);
    assert(all_placeholders(p) == all_placeholders(Seq::<Seq<char>>::empty()) + placeholders(x));
    assert(Seq::<nat>::empty() + placeholders(x) == placeholders(x));
}

/// An optional section without `$` holds no placeholder.
pub proof fn lemma_present_plain(o: Option<Seq<char>>)
    requires
        o is Some ==> no_dollar(o->0),
    ensures
        all_placeholders(present(o)) == Seq::<nat>::empty(),
{
    if let Some(x) = o {
        lemma_present_single(x);
        lemma_no_dollar(x);
    }
}

/// A list clause made of text without `$` holds no `$`.
pub proof fn lemma_list_clause_plain(
    keyword: Seq<char>,
    items: Seq<Seq<char>>,
    sep: Seq<char>,
    close: Seq<char>,
)
    requires
        no_dollar(keyword),
        no_dollar(sep),
        no_dollar(close),
        all_plain(items),
    ensures
        all_placeholders(present(list_clause(keyword, items, sep, close))) == Seq::<nat>::empty(),
{
    if items.len() > 0 {
        lemma_no_dollar_join(items, sep);
        lemma_no_dollar_concat(keyword, join(items, sep));
        lemma_no_dollar_concat(keyword + join(items, sep), close);
    }
    lemma_present_plain(list_clause(keyword, items, sep, close));
}

/// A list clause holds the placeholders of its items.
pub proof fn lemma_list_clause(keyword: Seq<char>, items: Seq<Seq<char>>, sep: Seq<char>, close: Seq<char>)
    requires
        no_dollar(keyword),
        quiet_separator(sep),
        no_dollar(close),
        close.len() == 0 || !is_digit(close[0]),
    ensures
        all_placeholders(present(list_clause(keyword, items, sep, close))) == all_placeholders(items),
{
    if items.len() > 0 {
        lemma_join(items, sep);
        lemma_enclosed(keyword, join(items, sep), close);
        lemma_present_single(keyword + join(items, sep) + close);
    }
}

pub proof fn lemma_index_range_push(first: nat, count: nat)
    ensures
        index_range(first, count).push(first + count) == index_range(first, count + 1),
{
    assert(index_range(first, count).push(first + count) =~= index_range(first, count + 1));
}

pub proof fn lemma_index_range_concat(first: nat, a: nat, b: nat)
    ensures
        index_range(first, a) + index_range(first + a, b) == index_range(first, a + b),
{
    assert(index_range(first, a) + index_range(first + a, b) =~= index_range(first, a + b));
}

pub proof fn lemma_plain_concat(a: Seq<Seq<char>>, b: Seq<Seq<char>>)
    requires
        all_plain(a),
        all_plain(b),
    ensures
        all_plain(a + b),
{
    assert forall|i: int| 0 <= i < (a + b).len() implies no_dollar(#[trigger] (a + b)[i]) by {
        if i < a.len() {
            assert((a + b)[i] == a[i]);
        } else {
            assert((a + b)[i] == b[i - a.len()]);
        }
    }
}

/// A comparison with a field and operator without `$` holds exactly its
/// own placeholder.
pub proof fn lemma_comparison(field: Seq<char>, op: Seq<char>, k: nat)
    requires
        no_dollar(field),
        no_dollar(op),
    ensures
        placeholders(comparison(field, op, k)) == seq![k],
{
    lemma_no_dollar_concat(field, op);
    lemma_no_dollar(field + op);
    lemma_placeholder(k);
    lemma_concat(field + op, placeholder(k));
}

/// Appending a part adds its placeholders at the end.
pub proof fn lemma_all_push(parts: Seq<Seq<char>>, x: Seq<char>)
    ensures
        all_placeholders(parts.push(x)) == all_placeholders(parts) + placeholders(x),
{
    assert(parts.push(x).drop_last() == parts);
}

/// `p` numbers `n` values: it holds each index from 1 to `n` exactly once.
pub open spec fn is_numbering(p: Seq<nat>, n: nat) -> bool {
    &&& p.len() == n
    &&& forall|i: int| 0 <= i < p.len() ==> 1 <= #[trigger] p[i] <= n
    &&& p.no_duplicates()
}

/// Placing the next index anywhere in a numbering gives a numbering of one
/// more value.
pub proof fn lemma_numbering_insert(a: Seq<nat>, b: Seq<nat>, n: nat)
    requires
        is_numbering(a + b, n),
    ensures
        is_numbering(a.push(n + 1) + b, n + 1),
{
    let p = a + b;
    let q = a.push(n + 1) + b;
    assert forall|i: int| 0 <= i < q.len() implies 1 <= #[trigger] q[i] <= n + 1 && (i < a.len()
        ==> q[i] == p[i]) && (i > a.len() ==> q[i] == p[i - 1]) && (i == a.len() ==> q[i] == n
        + 1) by {
        if i < a.len() {
            assert(q[i] == a[i] && p[i] == a[i]);
        } else if i > a.len() {
            assert(q[i] == b[i - a.len() - 1] && p[i - 1] == b[i - 1 - a.len()]);
        }
    }
    assert forall|i: int, j: int| 0 <= i < q.len() && 0 <= j < q.len() && i != j implies q[i]
        != q[j] by {
        let pi = if i < a.len() {
            i
        } else {
            i - 1
        };
        let pj = if j < a.len() {
            j
        } else {
            j - 1
        };
        if i != a.len() && j != a.len() {
            assert(q[i] == p[pi] && q[j] == p[pj]);
            assert(pi != pj);
        } else if i == a.len() {
            assert(q[j] == p[pj]);
            assert(1 <= p[pj] <= n);
        } else {
            assert(q[i] == p[pi]);
            assert(1 <= p[pi] <= n);
        }
    }
}

/// The placeholders of parts without `$` are none.
pub proof fn lemma_all_push_plain(parts: Seq<Seq<char>>, x: Seq<char>)
    requires
        no_dollar(x),
    ensures
        all_placeholders(parts.push(x)) == all_placeholders(parts),
{
    lemma_all_push(parts, x);
    lemma_no_dollar(x);
    assert(all_placeholders(parts) + Seq::<nat>::empty() == all_placeholders(parts));
}

} // verus!
