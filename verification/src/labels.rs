//! The labels of a host name: what stands between its dots.
use vstd::prelude::*;
use vstd::string::*;

verus! {

/// The parts of `s` between the occurrences of `sep`.
pub open spec fn split_on(s: Seq<char>, sep: char) -> Seq<Seq<char>>
    decreases s.len(),
{
    if s.len() == 0 {
        seq![s]
    } else {
        let parts = split_on(s.drop_last(), sep);
        if s.last() == sep {
            parts.push(Seq::empty())
        } else {
            parts.drop_last().push(parts.last().push(s.last()))
        }
    }
}

/// `parts` in a row, with `sep` between each two.
pub open spec fn joined(parts: Seq<Seq<char>>, sep: char) -> Seq<char>
    decreases parts.len(),
{
    if parts.len() == 0 {
        Seq::empty()
    } else if parts.len() == 1 {
        parts.last()
    } else {
        joined(parts.drop_last(), sep).push(sep) + parts.last()
    }
}

/// What stands in `s` before the first `sep`, where there is one.
pub open spec fn before_first(s: Seq<char>, sep: char) -> Option<Seq<char>> {
    match s.index_of_first(sep) {
        Some(i) => Some(s.take(i)),
        None => None,
    }
}

/// The texts of a list of strings.
pub open spec fn texts(parts: Seq<&str>) -> Seq<Seq<char>> {
    parts.map_values(|p: &str| p@)
}

proof fn lemma_split_nonempty(s: Seq<char>, sep: char)
    ensures
        split_on(s, sep).len() >= 1,
    decreases s.len(),
{
    if s.len() > 0 {
        lemma_split_nonempty(s.drop_last(), sep);
    }
}

/// Splitting loses nothing: the parts, joined again, are what was split.
pub proof fn law_split_then_join(s: Seq<char>, sep: char)
    ensures
        split_on(s, sep).len() >= 1,
        joined(split_on(s, sep), sep) == s,
    decreases s.len(),
{
    lemma_split_nonempty(s, sep);
    if s.len() > 0 {
        let init = s.drop_last();
        let parts = split_on(init, sep);
        law_split_then_join(init, sep);
        assert(s =~= init.push(s.last()));
        if s.last() == sep {
            assert(split_on(s, sep).drop_last() =~= parts);
        } else {
            assert(split_on(s, sep).drop_last() =~= parts.drop_last());
            if parts.len() > 1 {
                assert(joined(parts, sep).push(s.last()) =~= joined(parts.drop_last(), sep).push(sep)
                    + parts.last().push(s.last()));
            }
        }
    }
}

/// No part holds the separator.
pub proof fn law_parts_without_separator(s: Seq<char>, sep: char)
    ensures
        forall|i: int| 0 <= i < split_on(s, sep).len() ==> !(#[trigger] split_on(s, sep)[i]).contains(
            sep,
        ),
    decreases s.len(),
{
    if s.len() > 0 {
        let parts = split_on(s.drop_last(), sep);
        lemma_split_nonempty(s.drop_last(), sep);
        law_parts_without_separator(s.drop_last(), sep);
        assert forall|i: int| 0 <= i < split_on(s, sep).len() implies !(#[trigger] split_on(
            s,
            sep,
        )[i]).contains(sep) by {
            if s.last() != sep && i == parts.len() - 1 {
                assert(!parts[i].contains(sep));
                let grown = parts.last().push(s.last());
                if grown.contains(sep) {
                    let k = grown.index_of(sep);
                    assert(parts[i][k] == sep);
                }
            } else if i < parts.len() {
                assert(split_on(s, sep)[i] == parts[i]);
            }
        }
    }
}

proof fn lemma_split_appended(a: Seq<char>, b: Seq<char>, sep: char)
    requires
        !b.contains(sep),
    ensures
        split_on(a.push(sep) + b, sep) == split_on(a, sep).push(b),
    decreases b.len(),
{
    let whole = a.push(sep) + b;
    if b.len() == 0 {
        assert(whole =~= a.push(sep));
        assert(whole.drop_last() =~= a);
        assert(b =~= Seq::empty());
    } else {
        let init = b.drop_last();
        assert(!init.contains(sep)) by {
            if init.contains(sep) {
                let k = init.index_of(sep);
                assert(b[k] == sep);
            }
        }
        lemma_split_appended(a, init, sep);
        assert(whole.drop_last() =~= a.push(sep) + init);
        assert(b.last() != sep) by {
            assert(b[b.len() - 1] == b.last());
        }
        assert(split_on(a, sep).push(init).drop_last() =~= split_on(a, sep));
        assert(init.push(b.last()) =~= b);
    }
}

proof fn lemma_split_single(b: Seq<char>, sep: char)
    requires
        !b.contains(sep),
    ensures
        split_on(b, sep) == seq![b],
    decreases b.len(),
{
    if b.len() > 0 {
        let init = b.drop_last();
        assert(!init.contains(sep)) by {
            if init.contains(sep) {
                let k = init.index_of(sep);
                assert(b[k] == sep);
            }
        }
        lemma_split_single(init, sep);
        assert(b.last() != sep) by {
            assert(b[b.len() - 1] == b.last());
        }
        assert(init.push(b.last()) =~= b);
        assert(split_on(b, sep) =~= seq![b]);
    }
}

/// Splitting undoes joining: parts that do not hold the separator come back as they were.
pub proof fn law_join_then_split(parts: Seq<Seq<char>>, sep: char)
    requires
        parts.len() >= 1,
        forall|i: int| 0 <= i < parts.len() ==> !(#[trigger] parts[i]).contains(sep),
    ensures
        split_on(joined(parts, sep), sep) == parts,
    decreases parts.len(),
{
    if parts.len() == 1 {
        lemma_split_single(parts.last(), sep);
        assert(seq![parts.last()] =~= parts);
    } else {
        let init = parts.drop_last();
        assert forall|i: int| 0 <= i < init.len() implies !(#[trigger] init[i]).contains(sep) by {
            assert(init[i] == parts[i]);
        }
        law_join_then_split(init, sep);
        lemma_split_appended(joined(init, sep), parts.last(), sep);
        assert(init.push(parts.last()) =~= parts);
    }
}

/// There are two parts or more exactly where the separator occurs, and the first part is then
/// what stands before its first occurrence.
pub proof fn law_first_part(s: Seq<char>, sep: char)
    ensures
        split_on(s, sep).len() >= 1,
        split_on(s, sep).len() >= 2 <==> s.contains(sep),
        before_first(s, sep) == (if split_on(s, sep).len() >= 2 {
            Some(split_on(s, sep)[0])
        } else {
            None
        }),
        !s.contains(sep) ==> split_on(s, sep)[0] == s,
    decreases s.len(),
{
    lemma_split_nonempty(s, sep);
    s.index_of_first_ensures(sep);
    if s.len() > 0 {
        let init = s.drop_last();
        let parts = split_on(init, sep);
        lemma_split_nonempty(init, sep);
        law_first_part(init, sep);
        init.index_of_first_ensures(sep);
        if init.contains(sep) {
            let i = init.index_of_first(sep)->0;
            assert(s[i] == sep);
            let k = s.index_of_first(sep)->0;
            if k < i {
                assert(init[k] == s[k]);
            }
            assert(i == k);
            assert(init.take(i) =~= s.take(i));
        } else if s.last() == sep {
            assert(s[s.len() - 1] == sep);
            let k = s.index_of_first(sep)->0;
            if k < s.len() - 1 {
                assert(init[k] == s[k]);
            }
            assert(s.take(k) =~= init);
        } else {
            if s.contains(sep) {
                let k = s.index_of_first(sep)->0;
                assert(init[k] == s[k]);
            }
            assert(init.push(s.last()) =~= s);
        }
    } else {
        assert(!s.contains(sep));
    }
}

/// The labels of a host name.
pub fn split_labels<'a>(hostname: &'a str) -> (r: Vec<&'a str>)
    ensures
        texts(r@) == split_on(hostname@, '.'),
        r@.len() == split_on(hostname@, '.').len(),
        forall|i: int| 0 <= i < r@.len() ==> (#[trigger] r@[i])@ == split_on(hostname@, '.')[i],
{
    let total: usize = hostname.unicode_len();
    let mut parts: Vec<&'a str> = Vec::new();
    let mut start: usize = 0;
    let mut at: usize = 0;
    assert(hostname@.take(0) =~= Seq::empty());
    assert(texts(parts@).push(hostname@.subrange(0, 0)) =~= split_on(hostname@.take(0), '.'));
    for c in it: hostname.chars()
        invariant
            total == hostname@.len(),
            it.seq() == hostname@,
            at == it.index(),
            start <= at <= total,
            split_on(hostname@.take(at as int), '.') == texts(parts@).push(
                hostname@.subrange(start as int, at as int),
            ),
    {
        proof {
            let next = hostname@.take(at + 1);
            assert(next.drop_last() =~= hostname@.take(at as int));
            assert(next.last() == c);
            let done = texts(parts@).push(hostname@.subrange(start as int, at as int));
            assert(done.drop_last() =~= texts(parts@));
            assert(hostname@.subrange(start as int, at + 1) =~= hostname@.subrange(
                start as int,
                at as int,
            ).push(c));
        }
        if c == '.' {
            let ghost before = parts@;
            parts.push(hostname.substring_char(start, at));
            start = at + 1;
            assert(texts(parts@) =~= texts(before).push(parts@.last()@));
            assert(hostname@.subrange(start as int, at + 1) =~= Seq::empty());
        }
        at = at + 1;
    }
    let ghost before = parts@;
    parts.push(hostname.substring_char(start, total));
    assert(texts(parts@) =~= texts(before).push(parts@.last()@));
    assert(hostname@.take(total as int) =~= hostname@);
    assert forall|i: int| 0 <= i < parts@.len() implies (#[trigger] parts@[i])@ == split_on(
        hostname@,
        '.',
    )[i] by {
        assert(texts(parts@)[i] == parts@[i]@);
    }
    parts
}

/// The first label of a host name that has two or more.
pub fn first_label<'a>(hostname: &'a str) -> (r: Option<&'a str>)
    ensures
        match (r, before_first(hostname@, '.')) {
            (Some(label), Some(expected)) => label@ == expected,
            (None, None) => true,
            _ => false,
        },
        r is Some <==> hostname@.contains('.'),
        r matches Some(label) ==> {
            &&& label@.len() < hostname@.len()
            &&& label@ == hostname@.take(label@.len() as int)
            &&& hostname@[label@.len() as int] == '.'
            &&& !label@.contains('.')
        },
{
    let parts = split_labels(hostname);
    proof {
        law_first_part(hostname@, '.');
        law_before_first(hostname@, '.');
        assert(texts(parts@).len() == parts@.len());
    }
    if parts.len() < 2 {
        None
    } else {
        assert(texts(parts@)[0] == parts@[0]@);
        Some(parts[0])
    }
}

/// What stands before the first separator is a beginning of the whole, does not hold the separator,
/// and is followed by it; and there is such a beginning exactly where the separator occurs.
pub proof fn law_before_first(s: Seq<char>, sep: char)
    ensures
        before_first(s, sep) is Some <==> s.contains(sep),
        before_first(s, sep) matches Some(head) ==> {
            &&& head.len() < s.len()
            &&& head == s.take(head.len() as int)
            &&& s[head.len() as int] == sep
            &&& !head.contains(sep)
        },
{
    s.index_of_first_ensures(sep);
    if s.contains(sep) {
        let i = s.index_of_first(sep)->0;
        let head = s.take(i);
        if head.contains(sep) {
            let k = head.index_of(sep);
            assert(s[k] == sep);
        }
    }
}

/// The first part ends at the first separator, and the other parts are those of what comes after it;
/// a text without the separator is its only part.
pub proof fn law_split_at_first_separator(head: Seq<char>, sep: char, rest: Seq<char>)
    requires
        !head.contains(sep),
    ensures
        split_on(head, sep) == seq![head],
        split_on(head.push(sep) + rest, sep) == seq![head] + split_on(rest, sep),
    decreases rest.len(),
{
    lemma_split_single(head, sep);
    let whole = head.push(sep) + rest;
    if rest.len() == 0 {
        assert(whole.drop_last() =~= head);
        assert(rest =~= Seq::empty());
        assert(seq![head].push(Seq::empty()) =~= seq![head] + seq![rest]);
    } else {
        let init = rest.drop_last();
        law_split_at_first_separator(head, sep, init);
        lemma_split_nonempty(init, sep);
        assert(whole.drop_last() =~= head.push(sep) + init);
        let parts = split_on(init, sep);
        let all = seq![head] + parts;
        if rest.last() == sep {
            assert(all.push(Seq::empty()) =~= seq![head] + parts.push(Seq::empty()));
        } else {
            let grown = parts.last().push(rest.last());
            assert(all.drop_last().push(grown) =~= seq![head] + parts.drop_last().push(grown));
        }
    }
}

/// A single part is joined to itself, and one more part comes after a separator.
pub proof fn law_joined(parts: Seq<Seq<char>>, last: Seq<char>, sep: char)
    ensures
        joined(seq![last], sep) == last,
        parts.len() > 0 ==> joined(parts.push(last), sep) == joined(parts, sep) + seq![sep] + last,
{
    assert(parts.push(last).drop_last() =~= parts);
    if parts.len() > 0 {
        assert(joined(parts, sep).push(sep) + last =~= joined(parts, sep) + seq![sep] + last);
    }
}

} // verus!
