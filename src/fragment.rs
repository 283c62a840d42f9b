//! The fragment encoder: turns `?` markers into numbered placeholders while
//! binding one value per marker, and wraps a placeholder in function calls.

use crate::bucket::Bucket;
use crate::text::{placeholder, placeholder_text};
use crate::value::SqlValue;
use vstd::prelude::*;

verus! {

/// The number of `?` markers in `s`.
pub open spec fn markers(s: Seq<char>) -> nat
    decreases s.len(),
{
    if s.len() == 0 {
        0
    } else {
        markers(s.drop_last()) + if s.last() == '?' {
            1nat
        } else {
            0nat
        }
    }
}

/// `s` with its markers, read left to right, replaced by the placeholders
/// `$first`, `$first + 1`, ...; every other character is kept.
pub open spec fn expand(s: Seq<char>, first: nat) -> Seq<char>
    decreases s.len(),
{
    if s.len() == 0 {
        Seq::empty()
    } else if s.last() == '?' {
        expand(s.drop_last(), first) + placeholder(first + markers(s.drop_last()))
    } else {
        expand(s.drop_last(), first).push(s.last())
    }
}

/// The value bound in place of a marker that has no value of its own.
pub open spec fn is_missing_parameter(v: SqlValue) -> bool {
    match v {
        SqlValue::Text(s) => s@ == "missing_parameter"@,
        _ => false,
    }
}

/// `bound` holds, for each of `count` markers in turn, the value supplied
/// for it, or the missing-parameter sentinel where `supplied` ran out.
pub open spec fn binds_markers(bound: Seq<SqlValue>, supplied: Seq<SqlValue>, count: nat) -> bool {
    &&& bound.len() == count
    &&& forall|k: int|
        0 <= k < count ==> if k < supplied.len() {
            #[trigger] bound[k] == supplied[k]
        } else {
            is_missing_parameter(bound[k])
        }
}

/// Expands the markers of `fragment`, binding `values` to them in order in
/// `store`; a marker beyond the last value binds the missing-parameter
/// sentinel, and values beyond the last marker are dropped.
pub fn expand_fragment(store: &mut Bucket, fragment: &str, values: Vec<SqlValue>) -> (r: String)
    requires
        old(store)@.len() + markers(fragment@) <= usize::MAX,
    ensures
        r@ == expand(fragment@, old(store)@.len() + 1),
        final(store)@.len() == old(store)@.len() + markers(fragment@),
        final(store)@.subrange(0, old(store)@.len() as int) == old(store)@,
        binds_markers(
            final(store)@.skip(old(store)@.len() as int),
            values@,
            markers(fragment@),
        ),
{
    let ghost first = old(store)@.len() + 1;
    let ghost s = fragment@;
    let mut rest = values;
    let mut out = String::new();
    let mut used: usize = 0;
    let n = fragment.unicode_len();
    let mut i: usize = 0;
    while i < n
        invariant
            n == s.len(),
            s == fragment@,
            i <= n,
            first == old(store)@.len() + 1,
            old(store)@.len() + markers(s) <= usize::MAX,
            used == markers(s.take(i as int)),
            out@ == expand(s.take(i as int), first),
            rest@ == if used <= values@.len() {
                values@.skip(used as int)
            } else {
                Seq::empty()
            },
            store@.len() == old(store)@.len() + used,
            store@.subrange(0, old(store)@.len() as int) == old(store)@,
            binds_markers(store@.skip(old(store)@.len() as int), values@, used as nat),
        decreases n - i,
    {
        let c = fragment.get_char(i);
        let ghost t = s.take(i as int + 1);
        assert(t.drop_last() == s.take(i as int));
        assert(t.last() == c);
        proof {
            lemma_markers_prefix(s, i as int + 1);
        }
        if c == '?' {
            let ghost before = store@;
            let v = if rest.len() > 0 {
                rest.remove(0)
            } else {
                SqlValue::Text("missing_parameter".to_owned())
            };
            let index = store.push(v);
            let p = placeholder_text(index);
            out.append(p.as_str());
            used = used + 1;
            proof {
                if (used - 1) < values@.len() {
                    assert(values@.skip(used as int - 1)[0] == values@[used as int - 1]);
                    assert(values@.skip(used as int - 1).remove(0) == values@.skip(used as int));
                }
                let nb = store@.skip(old(store)@.len() as int);
                let ob = before.skip(old(store)@.len() as int);
                assert(nb == ob.push(v));
                assert forall|k: int| 0 <= k < used implies if k < values@.len() {
                    #[trigger] nb[k] == values@[k]
                } else {
                    is_missing_parameter(nb[k])
                } by {
                    if k < used - 1 {
                        assert(nb[k] == ob[k]);
                    }
                }
                assert(store@.subrange(0, old(store)@.len() as int) == before.subrange(
                    0,
                    old(store)@.len() as int,
                ));
            }
        } else {
            let one = fragment.substring_char(i, i + 1);
            assert(one@ == seq![c]);
            out.append(one);
        }
        i = i + 1;
    }
    assert(s.take(n as int) == s);
    out
}

proof fn lemma_markers_prefix(s: Seq<char>, j: int)
    requires
        0 <= j <= s.len(),
    ensures
        markers(s.take(j)) <= markers(s),
    decreases s.len() - j,
{
    if j < s.len() {
        lemma_markers_prefix(s, j + 1);
        assert(s.take(j + 1).drop_last() == s.take(j));
    } else {
        assert(s.take(j) == s);
    }
}

/// The closing of one function call: `, arg)` with a trailing argument,
/// `)` without.
pub open spec fn closing(arg: Option<&str>) -> Seq<char> {
    match arg {
        Some(a) => ", "@ + a@ + ")"@,
        None => ")"@,
    }
}

/// `inner` wrapped in calls of `fns`, the first outermost. The innermost
/// call takes the last of `args` as its trailing argument, the next one out
/// the one before it, and so on; `None`, or no argument left, adds none.
pub open spec fn wrap(fns: Seq<&str>, args: Seq<Option<&str>>, inner: Seq<char>) -> Seq<char>
    decreases fns.len(),
{
    if fns.len() == 0 {
        inner
    } else {
        let arg = if args.len() > 0 {
            args.last()
        } else {
            None
        };
        let rest = if args.len() > 0 {
            args.drop_last()
        } else {
            args
        };
        wrap(fns.drop_last(), rest, fns.last()@ + "("@ + inner + closing(arg))
    }
}

/// Wraps the placeholder `$index` in calls of `wrapper_fn`, e.g.
/// `ST_Transform(ST_GeomFromGeoJSON($3), 4362)`.
pub fn wrap_in_functions(index: usize, wrapper_fn: Vec<&str>, args: Vec<Option<&str>>) -> (r: String)
    ensures
        r@ == wrap(wrapper_fn@, args@, placeholder(index as nat)),
{
    let mut fns = wrapper_fn;
    let mut rest = args;
    let mut cur = placeholder_text(index);
    while fns.len() > 0
        invariant
            wrap(fns@, rest@, cur@) == wrap(wrapper_fn@, args@, placeholder(index as nat)),
        decreases fns.len(),
    {
        let ghost old_fns = fns@;
        let ghost old_rest = rest@;
        let ghost old_cur = cur@;
        let f = fns.pop().unwrap();
        let arg = match rest.pop() {
            Some(a) => a,
            None => None,
        };
        let mut next = String::new();
        next.append(f);
        next.append("(");
        next.append(cur.as_str());
        match arg {
            Some(a) => {
                next.append(", ");
                next.append(a);
                next.append(")");
            },
            None => {
                next.append(")");
            },
        }
        proof {
            let a = if old_rest.len() > 0 {
                old_rest.last()
            } else {
                None
            };
            assert(arg == a);
            assert(next@ == f@ + "("@ + old_cur + closing(arg));
            assert(fns@ == old_fns.drop_last());
        }
        cur = next;
    }
    cur
}

} // verus!
