//! Verified text utilities for the CSV reader: splitting on a separator
//! character and trimming surrounding whitespace.
//!
//! The specifications are recursive functions over `Seq<char>`; the
//! executable functions return exactly the sequences those functions
//! describe.

use vstd::prelude::*;

verus! {

/// ASCII whitespace, as trimmed from CSV fields.
pub open spec fn is_space(c: char) -> bool {
    c == ' ' || c == '\t' || c == '\r' || c == '\n' || c == '\u{c}'
}

/// `s` without its leading whitespace.
pub open spec fn trim_start_rec(s: Seq<char>) -> Seq<char>
    decreases s.len(),
{
    if s.len() > 0 && is_space(s[0]) {
        trim_start_rec(s.drop_first())
    } else {
        s
    }
}

/// `s` without its trailing whitespace.
pub open spec fn trim_end_rec(s: Seq<char>) -> Seq<char>
    decreases s.len(),
{
    if s.len() > 0 && is_space(s.last()) {
        trim_end_rec(s.drop_last())
    } else {
        s
    }
}

/// `s` without leading and trailing whitespace.
pub open spec fn spec_trim(s: Seq<char>) -> Seq<char> {
    trim_end_rec(trim_start_rec(s))
}

/// The segments of `s` between occurrences of `sep`: always one more
/// segment than there are separators, in order, separators removed.
pub open spec fn spec_split(s: Seq<char>, sep: char) -> Seq<Seq<char>>
    decreases s.len(),
{
    if s.len() == 0 {
        seq![Seq::<char>::empty()]
    } else {
        let rest = spec_split(s.drop_last(), sep);
        if s.last() == sep {
            rest.push(Seq::<char>::empty())
        } else {
            rest.update(rest.len() - 1, rest.last().push(s.last()))
        }
    }
}

/// Splitting always yields at least one segment.
pub proof fn lemma_split_len_pos(s: Seq<char>, sep: char)
    ensures
        spec_split(s, sep).len() >= 1,
    decreases s.len(),
{
    if s.len() > 0 {
        lemma_split_len_pos(s.drop_last(), sep);
    }
}

/// `line` with a trailing carriage return removed, for inputs with
/// CRLF record separators.
pub open spec fn strip_cr(line: Seq<char>) -> Seq<char> {
    if line.len() > 0 && line.last() == '\r' {
        line.drop_last()
    } else {
        line
    }
}

/// The fields of one record: the comma-separated pieces, each trimmed.
pub open spec fn fields_of(record: Seq<char>) -> Seq<Seq<char>> {
    spec_split(record, ',').map_values(|f: Seq<char>| spec_trim(f))
}

/// The position of the first occurrence of `name` in `items`, or
/// `items.len()` when it does not occur.
pub open spec fn lookup(items: Seq<Seq<char>>, name: Seq<char>) -> int
    decreases items.len(),
{
    if items.len() == 0 {
        0
    } else if items[0] == name {
        0
    } else {
        1 + lookup(items.drop_first(), name)
    }
}

proof fn lemma_lookup_skip(items: Seq<Seq<char>>, name: Seq<char>, i: int)
    requires
        0 <= i <= items.len(),
        forall|k: int| 0 <= k < i ==> items[k] != name,
    ensures
        lookup(items, name) == i + lookup(items.skip(i), name),
    decreases i,
{
    if i == 0 {
        assert(items.skip(0) =~= items);
    } else {
        assert(items.len() > 0 && items[0] != name);
        assert(forall|k: int|
            0 <= k < i - 1 ==> items.drop_first()[k] == items[k + 1] && items.drop_first()[k]
                != name);
        lemma_lookup_skip(items.drop_first(), name, i - 1);
        assert(items.drop_first().skip(i - 1) =~= items.skip(i));
    }
}

fn is_space_exec(c: char) -> (r: bool)
    ensures
        r == is_space(c),
{
    c == ' ' || c == '\t' || c == '\r' || c == '\n' || c == '\u{c}'
}

/// Split `s` at every occurrence of `sep`.
pub fn split_char(s: &str, sep: char) -> (r: Vec<String>)
    ensures
        r.deep_view() == spec_split(s@, sep),
{
    let len = s.unicode_len();
    let mut parts: Vec<String> = Vec::new();
    let mut start: usize = 0;
    let mut i: usize = 0;
    proof {
        assert(s@.take(0) =~= Seq::<char>::empty());
        assert(s@.subrange(0, 0) =~= Seq::<char>::empty());
        assert(spec_split(s@.take(0), sep) =~~= parts.deep_view().push(s@.subrange(0, 0)));
    }
    while i < len
        invariant
            len == s@.len(),
            0 <= start <= i <= len,
            spec_split(s@.take(i as int), sep) == parts.deep_view().push(
                s@.subrange(start as int, i as int),
            ),
        decreases len - i,
    {
        let c = s.get_char(i);
        proof {
            assert(s@.take(i + 1).drop_last() =~= s@.take(i as int));
            assert(s@.take(i + 1).last() == s@[i as int]);
            lemma_split_len_pos(s@.take(i as int), sep);
        }
        if c == sep {
            let seg = s.substring_char(start, i).to_owned();
            let ghost old_parts = parts.deep_view();
            parts.push(seg);
            proof {
                assert(parts.deep_view() =~~= old_parts.push(s@.subrange(start as int, i as int)));
                assert(spec_split(s@.take(i + 1), sep) =~~= parts.deep_view().push(
                    s@.subrange(i + 1, i + 1),
                ));
            }
            start = i + 1;
        } else {
            proof {
                let prev = spec_split(s@.take(i as int), sep);
                assert(prev.last() == s@.subrange(start as int, i as int));
                assert(prev.last().push(s@[i as int]) =~= s@.subrange(start as int, i + 1));
                assert(spec_split(s@.take(i + 1), sep) =~~= parts.deep_view().push(
                    s@.subrange(start as int, i + 1),
                ));
            }
        }
        i = i + 1;
    }
    let seg = s.substring_char(start, len).to_owned();
    let ghost old_parts = parts.deep_view();
    parts.push(seg);
    proof {
        assert(s@.take(len as int) =~= s@);
        assert(parts.deep_view() =~~= old_parts.push(s@.subrange(start as int, len as int)));
    }
    parts
}

/// Split one record into its trimmed fields.
pub fn split_fields(record: &str) -> (r: Vec<String>)
    ensures
        r.deep_view() == fields_of(record@),
{
    let raw = split_char(record, ',');
    let mut out: Vec<String> = Vec::new();
    let mut j: usize = 0;
    proof {
        assert(raw.deep_view().take(0) =~= Seq::<Seq<char>>::empty());
        assert(out.deep_view() =~~= raw.deep_view().take(0).map_values(
            |f: Seq<char>| spec_trim(f),
        ));
    }
    while j < raw.len()
        invariant
            raw.deep_view() == spec_split(record@, ','),
            0 <= j <= raw.len(),
            out.deep_view() == raw.deep_view().take(j as int).map_values(
                |f: Seq<char>| spec_trim(f),
            ),
        decreases raw.len() - j,
    {
        let ghost old_out = out.deep_view();
        out.push(trim_str(raw[j].as_str()));
        proof {
            let f = |f: Seq<char>| spec_trim(f);
            let dv = raw.deep_view();
            assert(out.deep_view() =~~= old_out.push(f(dv[j as int])));
            assert(dv.take(j + 1).drop_last() =~= dv.take(j as int));
            assert(dv.take(j + 1).map_values(f) =~~= dv.take(j as int).map_values(f).push(
                f(dv[j as int]),
            ));
        }
        j = j + 1;
    }
    proof {
        assert(raw.deep_view().take(raw.deep_view().len() as int) =~= raw.deep_view());
    }
    out
}

/// The position of the first item of `items` equal to `name`, or
/// `items.len()` when none is.
pub fn find_index(items: &Vec<String>, name: &str) -> (r: usize)
    ensures
        r == lookup(items.deep_view(), name@),
{
    let n = String::from_str(name);
    let mut i: usize = 0;
    while i < items.len()
        invariant
            0 <= i <= items.len(),
            n@ == name@,
            forall|k: int| 0 <= k < i ==> items.deep_view()[k] != name@,
        decreases items.len() - i,
    {
        if items[i].eq(&n) {
            proof {
                lemma_lookup_skip(items.deep_view(), name@, i as int);
                assert(items.deep_view().skip(i as int)[0] == items.deep_view()[i as int]);
            }
            return i;
        }
        i = i + 1;
    }
    proof {
        lemma_lookup_skip(items.deep_view(), name@, items.deep_view().len() as int);
    }
    items.len()
}

/// Trim surrounding ASCII whitespace from `s`.
pub fn trim_str(s: &str) -> (r: String)
    ensures
        r@ == spec_trim(s@),
{
    let len = s.unicode_len();
    let mut a: usize = 0;
    proof {
        assert(s@.subrange(0, len as int) =~= s@);
    }
    loop
        invariant
            len == s@.len(),
            0 <= a <= len,
            trim_start_rec(s@) == trim_start_rec(s@.subrange(a as int, len as int)),
        ensures
            0 <= a <= len,
            trim_start_rec(s@) == s@.subrange(a as int, len as int),
        decreases len - a,
    {
        if a < len && is_space_exec(s.get_char(a)) {
            proof {
                assert(s@.subrange(a as int, len as int).drop_first() =~= s@.subrange(
                    a + 1,
                    len as int,
                ));
            }
            a = a + 1;
        } else {
            break ;
        }
    }
    let mut b: usize = len;
    loop
        invariant
            len == s@.len(),
            0 <= a <= b <= len,
            trim_start_rec(s@) == s@.subrange(a as int, len as int),
            trim_end_rec(s@.subrange(a as int, len as int)) == trim_end_rec(
                s@.subrange(a as int, b as int),
            ),
        ensures
            a <= b <= len == s@.len(),
            trim_start_rec(s@) == s@.subrange(a as int, len as int),
            spec_trim(s@) == s@.subrange(a as int, b as int),
        decreases b,
    {
        if b > a && is_space_exec(s.get_char(b - 1)) {
            proof {
                assert(s@.subrange(a as int, b as int).drop_last() =~= s@.subrange(
                    a as int,
                    b - 1,
                ));
            }
            b = b - 1;
        } else {
            break ;
        }
    }
    s.substring_char(a, b).to_owned()
}

} // verus!
