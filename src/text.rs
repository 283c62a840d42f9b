//! Text primitives shared by every statement kind: joining fragments with a
//! separator and writing placeholder indices in decimal.

use vstd::prelude::*;

verus! {

/// The characters of `parts`, with `sep` between each two neighbours.
pub open spec fn join(parts: Seq<Seq<char>>, sep: Seq<char>) -> Seq<char>
    decreases parts.len(),
{
    if parts.len() == 0 {
        Seq::empty()
    } else if parts.len() == 1 {
        parts[0]
    } else {
        join(parts.drop_last(), sep) + sep + parts.last()
    }
}

/// Joining one more part adds the separator and the part.
pub proof fn lemma_join_push(parts: Seq<Seq<char>>, x: Seq<char>, sep: Seq<char>)
    requires
        parts.len() > 0,
    ensures
        join(parts.push(x), sep) == join(parts, sep) + sep + x,
{
    assert(parts.push(x).drop_last() == parts);
}

/// The views of a vector of strings.
pub open spec fn views(v: Seq<String>) -> Seq<Seq<char>> {
    v.map_values(|s: String| s@)
}

/// The decimal digit for `d`, which is below ten.
pub open spec fn digit_char(d: nat) -> char {
    seq!['0', '1', '2', '3', '4', '5', '6', '7', '8', '9'][d as int]
}

/// `n` written in decimal, without leading zeros.
pub open spec fn decimal(n: nat) -> Seq<char>
    decreases n,
{
    if n < 10 {
        seq![digit_char(n)]
    } else {
        decimal(n / 10).push(digit_char(n % 10))
    }
}

/// The placeholder text for the 1-based parameter index `n`.
pub open spec fn placeholder(n: nat) -> Seq<char> {
    seq!['$'] + decimal(n)
}

fn digit_str(d: usize) -> (r: &'static str)
    requires
        d < 10,
    ensures
        r@ == seq![digit_char(d as nat)],
{
    proof {
        reveal_strlit("0");
        reveal_strlit("1");
        reveal_strlit("2");
        reveal_strlit("3");
        reveal_strlit("4");
        reveal_strlit("5");
        reveal_strlit("6");
        reveal_strlit("7");
        reveal_strlit("8");
        reveal_strlit("9");
    }
    match d {
        0 => "0",
        1 => "1",
        2 => "2",
        3 => "3",
        4 => "4",
        5 => "5",
        6 => "6",
        7 => "7",
        8 => "8",
        _ => "9",
    }
}

/// Appends `n` in decimal to `out`.
pub fn push_decimal(out: &mut String, n: usize)
    ensures
        final(out)@ == old(out)@ + decimal(n as nat),
    decreases n,
{
    if n >= 10 {
        push_decimal(out, n / 10);
    }
    out.append(digit_str(n % 10));
    proof {
        if n >= 10 {
            assert(old(out)@ + decimal(n as nat) == old(out)@ + decimal((n / 10) as nat) + seq![
                digit_char((n % 10) as nat),
            ]);
        }
    }
}

/// The placeholder `$n` for the parameter at 1-based index `n`.
pub fn placeholder_text(n: usize) -> (r: String)
    ensures
        r@ == placeholder(n as nat),
{
    let mut out = String::new();
    out.append("$");
    proof {
        reveal_strlit("$");
    }
    push_decimal(&mut out, n);
    out
}

/// Joins `parts` with `sep` between each two neighbours.
pub fn join_strings(parts: &Vec<String>, sep: &str) -> (r: String)
    ensures
        r@ == join(views(parts@), sep@),
{
    let mut out = String::new();
    let n = parts.len();
    let mut i: usize = 0;
    while i < n
        invariant
            n == parts.len(),
            i <= n,
            out@ == join(views(parts@).take(i as int), sep@),
        decreases n - i,
    {
        proof {
            let t = views(parts@).take(i as int + 1);
            assert(t.drop_last() == views(parts@).take(i as int));
        }
        if i > 0 {
            out.append(sep);
        }
        out.append(parts[i].as_str());
        i = i + 1;
    }
    assert(views(parts@).take(n as int) == views(parts@));
    out
}

/// The view of an optional string.
pub open spec fn opt_view(o: Option<String>) -> Option<Seq<char>> {
    match o {
        Some(s) => Some(s@),
        None => None,
    }
}

/// An optional clause as a list of zero or one sections.
pub open spec fn present(o: Option<Seq<char>>) -> Seq<Seq<char>> {
    match o {
        Some(s) => seq![s],
        None => Seq::empty(),
    }
}

/// A clause that lists `items` between `keyword` and `close`, or no clause
/// when there are no items.
pub open spec fn list_clause(
    keyword: Seq<char>,
    items: Seq<Seq<char>>,
    sep: Seq<char>,
    close: Seq<char>,
) -> Option<Seq<char>> {
    if items.len() > 0 {
        Some(keyword + join(items, sep) + close)
    } else {
        None
    }
}

/// Renders `items` joined with `sep` between `keyword` and `close`, or
/// nothing when `items` is empty.
pub fn list_clause_text(keyword: &str, items: &Vec<String>, sep: &str, close: &str) -> (r: Option<
    String,
>)
    ensures
        opt_view(r) == list_clause(keyword@, views(items@), sep@, close@),
{
    if items.len() > 0 {
        let mut out = String::new();
        out.append(keyword);
        let body = join_strings(items, sep);
        out.append(body.as_str());
        out.append(close);
        Some(out)
    } else {
        None
    }
}

/// Appends an optional section to the sections of a statement.
pub fn push_section(sections: &mut Vec<String>, section: Option<String>)
    ensures
        views(final(sections)@) == views(old(sections)@) + present(opt_view(section)),
{
    match section {
        Some(s) => {
            sections.push(s);
        },
        None => {},
    }
    assert(views(sections@) == views(old(sections)@) + present(opt_view(section)));
}

/// The concatenation `a + b` of two strings.
pub fn concat2(a: &str, b: &str) -> (r: String)
    ensures
        r@ == a@ + b@,
{
    let mut out = String::new();
    out.append(a);
    out.append(b);
    out
}

/// The views of a sequence of string slices.
pub open spec fn strs(v: Seq<&str>) -> Seq<Seq<char>> {
    v.map_values(|s: &str| s@)
}

/// Appends an owned copy of each of `items` to `dst`, in order.
pub fn push_all(dst: &mut Vec<String>, items: Vec<&str>)
    ensures
        views(final(dst)@) == views(old(dst)@) + strs(items@),
{
    let n = items.len();
    let mut i: usize = 0;
    while i < n
        invariant
            n == items.len(),
            i <= n,
            views(dst@) == views(old(dst)@) + strs(items@).take(i as int),
        decreases n - i,
    {
        let ghost prev = dst@;
        dst.push(items[i].to_owned());
        assert(views(dst@) == views(prev).push(items@[i as int]@));
        assert(strs(items@).take(i as int + 1) == strs(items@).take(i as int).push(items@[i as int]@));
        i = i + 1;
    }
    assert(strs(items@).take(n as int) == strs(items@));
}

} // verus!
