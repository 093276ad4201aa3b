use vstd::prelude::*;
use vstd::string::StringExecFns;

verus! {

/// Relies on String::push: the character is appended at the end.
pub assume_specification[ String::push ](s: &mut String, ch: char)
    ensures
        final(s)@ == old(s)@.push(ch),
;

/// Relies on String::pop: the last character is removed and returned, if any.
pub assume_specification[ String::pop ](s: &mut String) -> (r: Option<char>)
    ensures
        old(s)@.len() == 0 ==> r is None && final(s)@ == old(s)@,
        old(s)@.len() > 0 ==> r == Some(old(s)@.last()) && final(s)@ == old(s)@.drop_last(),
;

/// What `str::trim` returns: the text without leading and trailing white space.
pub uninterp spec fn trim_of(s: Seq<char>) -> Seq<char>;

/// Relies on str::trim: leading and trailing white space removed.
pub assume_specification<'a>[ str::trim ](s: &'a str) -> (r: &'a str)
    ensures
        r@ == trim_of(s@),
;

/// The pieces of `s` between commas, in order; `s` without a comma is one piece.
pub open spec fn split_on_commas(s: Seq<char>) -> Seq<Seq<char>>
    decreases s.len(),
{
    if s.len() == 0 {
        seq![Seq::empty()]
    } else {
        let prev = split_on_commas(s.drop_last());
        if s.last() == ',' {
            prev.push(Seq::empty())
        } else {
            prev.update(prev.len() - 1, prev.last().push(s.last()))
        }
    }
}

/// The pieces that hold at least one character, in order.
pub open spec fn keep_nonempty(pieces: Seq<Seq<char>>) -> Seq<Seq<char>> {
    pieces.filter(|p: Seq<char>| p.len() > 0)
}

/// Tags as read from comma-separated text: each piece trimmed, empty ones dropped.
pub open spec fn parse_tags(raw: Seq<char>) -> Seq<Seq<char>> {
    keep_nonempty(split_on_commas(raw).map_values(|p: Seq<char>| trim_of(p)))
}

/// The pieces joined with a comma and a space between each two.
pub open spec fn join_with_comma(pieces: Seq<Seq<char>>) -> Seq<char>
    decreases pieces.len(),
{
    if pieces.len() == 0 {
        Seq::empty()
    } else if pieces.len() == 1 {
        pieces[0]
    } else {
        join_with_comma(pieces.drop_last()) + seq![',', ' '] + pieces.last()
    }
}

pub open spec fn digit_char(d: nat) -> char {
    if d == 0 { '0' }
    else if d == 1 { '1' }
    else if d == 2 { '2' }
    else if d == 3 { '3' }
    else if d == 4 { '4' }
    else if d == 5 { '5' }
    else if d == 6 { '6' }
    else if d == 7 { '7' }
    else if d == 8 { '8' }
    else { '9' }
}

/// The decimal digits of `n`, most significant first, with no leading zero.
pub open spec fn decimal(n: nat) -> Seq<char>
    decreases n,
{
    if n < 10 {
        seq![digit_char(n)]
    } else {
        decimal(n / 10).push(digit_char(n % 10))
    }
}

/// Splits `s` at each comma; the pieces keep their surrounding white space.
pub fn split_commas(s: &str) -> (r: Vec<String>)
    ensures
        r.deep_view() == split_on_commas(s@),
{
    let mut pieces: Vec<String> = Vec::new();
    let mut cur = String::new();
    for c in it: s.chars()
        invariant
            it.seq() == s@,
            pieces.deep_view().push(cur@) == split_on_commas(s@.take(it.index() as int)),
    {
        let ghost before = s@.take(it.index() as int);
        proof {
            assert(s@.take(it.index() + 1).drop_last() =~= before);
        }
        if c == ',' {
            let mut done = String::new();
            std::mem::swap(&mut cur, &mut done);
            pieces.push(done);
            assert(pieces.deep_view().push(cur@) =~= split_on_commas(s@.take(it.index() + 1)));
        } else {
            cur.push(c);
            assert(pieces.deep_view().push(cur@) =~= split_on_commas(s@.take(it.index() + 1)));
        }
    }
    assert(s@.take(s@.len() as int) =~= s@);
    pieces.push(cur);
    assert(pieces.deep_view() =~= split_on_commas(s@));
    pieces
}

/// Keeps the pieces that hold at least one character, in order.
pub fn drop_empty(pieces: Vec<String>) -> (r: Vec<String>)
    ensures
        r.deep_view() == keep_nonempty(pieces.deep_view()),
{
    let mut kept: Vec<String> = Vec::new();
    let mut i: usize = 0;
    let ghost dv = pieces.deep_view();
    while i < pieces.len()
        invariant
            i <= pieces.len(),
            dv == pieces.deep_view(),
            kept.deep_view() == keep_nonempty(dv.take(i as int)),
        decreases pieces.len() - i,
    {
        let p = &pieces[i];
        proof {
            assert(dv[i as int] == p@);
            assert(dv.take(i + 1) =~= dv.take(i as int).push(p@));
            dv.take(i as int).lemma_filter_push(p@, |q: Seq<char>| q.len() > 0);
        }
        if !p.as_str().is_empty() {
            kept.push(p.clone());
            assert(kept.deep_view() =~= keep_nonempty(dv.take(i + 1)));
        } else {
            assert(kept.deep_view() =~= keep_nonempty(dv.take(i + 1)));
        }
        i = i + 1;
    }
    assert(dv.take(pieces.len() as int) =~= dv);
    kept
}

/// Reads tags from comma-separated text: each piece trimmed, empty ones dropped.
pub fn tags_from_text(raw: &str) -> (r: Vec<String>)
    ensures
        r.deep_view() == parse_tags(raw@),
{
    let pieces = split_commas(raw);
    let ghost dv = pieces.deep_view();
    let mut trimmed: Vec<String> = Vec::new();
    let mut i: usize = 0;
    while i < pieces.len()
        invariant
            i <= pieces.len(),
            dv == pieces.deep_view(),
            trimmed.deep_view() =~= dv.take(i as int).map_values(|p: Seq<char>| trim_of(p)),
        decreases pieces.len() - i,
    {
        let t = pieces[i].as_str().trim();
        assert(dv[i as int] == pieces[i as int]@);
        let owned = t.to_owned();
        assert(owned@ == trim_of(dv[i as int]));
        let ghost prev = trimmed.deep_view();
        trimmed.push(owned);
        assert(trimmed.deep_view() =~= prev.push(trim_of(dv[i as int])));
        assert(dv.take(i + 1).map_values(|p: Seq<char>| trim_of(p)) =~= dv.take(
            i as int,
        ).map_values(|p: Seq<char>| trim_of(p)).push(trim_of(dv[i as int])));
        i = i + 1;
    }
    assert(dv.take(pieces.len() as int) =~= dv);
    drop_empty(trimmed)
}

/// Joins the pieces with a comma and a space between each two.
pub fn join_comma(pieces: &Vec<String>) -> (r: String)
    ensures
        r@ == join_with_comma(pieces.deep_view()),
{
    let ghost dv = pieces.deep_view();
    let mut out = String::new();
    let mut i: usize = 0;
    while i < pieces.len()
        invariant
            i <= pieces.len(),
            dv == pieces.deep_view(),
            out@ == join_with_comma(dv.take(i as int)),
        decreases pieces.len() - i,
    {
        proof {
            assert(dv.take(i + 1).drop_last() =~= dv.take(i as int));
            assert(dv[i as int] == pieces[i as int]@);
        }
        if i > 0 {
            out.append(", ");
            proof {
                reveal_strlit(", ");
            }
        }
        out.append(pieces[i].as_str());
        assert(out@ =~= join_with_comma(dv.take(i + 1)));
        i = i + 1;
    }
    assert(dv.take(pieces.len() as int) =~= dv);
    out
}

fn digit(d: usize) -> (c: char)
    requires
        d < 10,
    ensures
        c == digit_char(d as nat),
{
    match d {
        0 => '0',
        1 => '1',
        2 => '2',
        3 => '3',
        4 => '4',
        5 => '5',
        6 => '6',
        7 => '7',
        8 => '8',
        _ => '9',
    }
}

/// Appends the decimal digits of `n` to `out`.
pub fn push_decimal(out: &mut String, n: usize)
    ensures
        final(out)@ == old(out)@ + decimal(n as nat),
    decreases n,
{
    if n >= 10 {
        push_decimal(out, n / 10);
    }
    out.push(digit(n % 10));
    assert(final(out)@ =~= old(out)@ + decimal(n as nat));
}

} // verus!
