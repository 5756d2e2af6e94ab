//! Verified text handling: trimming whitespace, splitting a comma-separated
//! list, and stripping a trailing percent sign. These are the string rules
//! the adapters and the normalizer are specified over.
use vstd::prelude::*;
use vstd::string::*;

verus! {

/// Whitespace as the Unicode `White_Space` property defines it: the set of
/// characters that trimming removes.
pub open spec fn is_space(c: char) -> bool {
    (c as u32) == 0x09 || (c as u32) == 0x0A || (c as u32) == 0x0B || (c as u32) == 0x0C
        || (c as u32) == 0x0D || (c as u32) == 0x20 || (c as u32) == 0x85 || (c as u32) == 0xA0
        || (c as u32) == 0x1680 || (0x2000 <= (c as u32) && (c as u32) <= 0x200A)
        || (c as u32) == 0x2028 || (c as u32) == 0x2029 || (c as u32) == 0x202F
        || (c as u32) == 0x205F || (c as u32) == 0x3000
}

/// Executable test for [`is_space`].
pub fn is_space_char(c: char) -> (r: bool)
    ensures
        r == is_space(c),
{
    let u: u32 = c as u32;
    u == 0x09 || u == 0x0A || u == 0x0B || u == 0x0C || u == 0x0D || u == 0x20 || u == 0x85
        || u == 0xA0 || u == 0x1680 || (0x2000 <= u && u <= 0x200A) || u == 0x2028 || u == 0x2029
        || u == 0x202F || u == 0x205F || u == 0x3000
}

/// The sequence with its leading whitespace removed.
pub open spec fn trim_start_spec(s: Seq<char>) -> Seq<char>
    decreases s.len(),
{
    if s.len() > 0 && is_space(s[0]) {
        trim_start_spec(s.drop_first())
    } else {
        s
    }
}

/// The sequence with its trailing whitespace removed.
pub open spec fn trim_end_spec(s: Seq<char>) -> Seq<char>
    decreases s.len(),
{
    if s.len() > 0 && is_space(s[s.len() - 1]) {
        trim_end_spec(s.drop_last())
    } else {
        s
    }
}

/// The sequence with whitespace removed from both ends: what trimming a
/// string yields.
pub open spec fn trim_spec(s: Seq<char>) -> Seq<char> {
    trim_end_spec(trim_start_spec(s))
}

proof fn lemma_trim_start_skip(s: Seq<char>, j: int)
    requires
        0 <= j <= s.len(),
        forall|k: int| 0 <= k < j ==> is_space(s[k]),
        j == s.len() || !is_space(s[j]),
    ensures
        trim_start_spec(s) =~= s.skip(j),
    decreases j,
{
    if j == 0 {
        assert(trim_start_spec(s) =~= s.skip(0));
    } else {
        let t = s.drop_first();
        assert(forall|k: int| 0 <= k < j - 1 ==> is_space(t[k]));
        lemma_trim_start_skip(t, j - 1);
        assert(t.skip(j - 1) =~= s.skip(j));
    }
}

proof fn lemma_trim_end_take(s: Seq<char>, m: int)
    requires
        0 <= m <= s.len(),
        forall|k: int| m <= k < s.len() ==> is_space(s[k]),
        m == 0 || !is_space(s[m - 1]),
    ensures
        trim_end_spec(s) =~= s.take(m),
    decreases s.len(),
{
    if s.len() == m as nat {
        assert(trim_end_spec(s) =~= s.take(m));
    } else {
        let t = s.drop_last();
        lemma_trim_end_take(t, m);
        assert(t.take(m) =~= s.take(m));
    }
}

/// Trimmed copy of a string: whitespace removed from both ends.
pub fn trim_str(s: &str) -> (r: String)
    ensures
        r@ == trim_spec(s@),
{
    let n = s.unicode_len();
    let mut i: usize = 0;
    while i < n && is_space_char(s.get_char(i))
        invariant
            0 <= i <= n,
            n == s@.len(),
            forall|k: int| 0 <= k < i ==> is_space(s@[k]),
        decreases n - i,
    {
        i = i + 1;
    }
    let mut j: usize = n;
    while j > i && is_space_char(s.get_char(j - 1))
        invariant
            i <= j <= n,
            n == s@.len(),
            forall|k: int| j <= k < n ==> is_space(s@[k]),
        decreases j,
    {
        j = j - 1;
    }
    proof {
        lemma_trim_start_skip(s@, i as int);
        let t = s@.skip(i as int);
        assert(forall|k: int| j - i <= k < t.len() ==> is_space(t[k]));
        if j > i {
            assert(!is_space(t[j - i - 1]));
        } else {
            if i < n {
                assert(!is_space(s@[i as int]));
                assert(is_space(s@[i as int]));
            }
            assert(t.len() == 0);
        }
        lemma_trim_end_take(t, j - i);
        assert(t.take(j - i) =~= s@.subrange(i as int, j as int));
    }
    let sub = s.substring_char(i, j);
    sub.to_owned()
}

/// Index of the first comma, or the length of the sequence when it holds
/// none.
pub open spec fn first_comma(s: Seq<char>) -> nat
    decreases s.len(),
{
    if s.len() == 0 {
        0
    } else if s[0] == ',' {
        0
    } else {
        1 + first_comma(s.drop_first())
    }
}

proof fn lemma_first_comma_is(s: Seq<char>, j: int)
    requires
        0 <= j <= s.len(),
        forall|k: int| 0 <= k < j ==> s[k] != ',',
        j == s.len() || s[j] == ',',
    ensures
        first_comma(s) == j,
    decreases j,
{
    if j == 0 {
    } else {
        let t = s.drop_first();
        assert(forall|k: int| 0 <= k < j - 1 ==> t[k] != ',');
        lemma_first_comma_is(t, j - 1);
    }
}

/// The segments a sequence breaks into at its commas, commas not included.
/// A sequence without a comma yields one segment (itself); every comma adds
/// one segment, so empty segments are kept.
pub open spec fn split_commas(s: Seq<char>) -> Seq<Seq<char>>
    decreases s.len(),
{
    let fc = first_comma(s);
    if fc >= s.len() {
        seq![s]
    } else {
        seq![s.take(fc as int)] + split_commas(s.skip(fc as int + 1))
    }
}

/// Splits a string at its commas, as [`split_commas`] describes.
pub fn split_commas_str(s: &str) -> (r: Vec<String>)
    ensures
        r.deep_view() == split_commas(s@),
{
    let n = s.unicode_len();
    let mut out: Vec<String> = Vec::new();
    let mut start: usize = 0;
    let mut i: usize = 0;
    proof {
        assert(s@.skip(0) =~= s@);
        assert(out.deep_view() =~~= Seq::<Seq<char>>::empty());
        assert(out.deep_view() + split_commas(s@) =~~= split_commas(s@));
    }
    while i < n
        invariant
            0 <= start <= i <= n,
            n == s@.len(),
            out.deep_view() + split_commas(s@.skip(start as int)) =~~= split_commas(s@),
            forall|k: int| start <= k < i ==> s@[k] != ',',
        decreases n - i,
    {
        if s.get_char(i) == ',' {
            let piece = s.substring_char(start, i).to_owned();
            proof {
                let rest = s@.skip(start as int);
                assert forall|k: int| 0 <= k < i - start implies rest[k] != ',' by {
                    assert(rest[k] == s@[k + start]);
                }
                lemma_first_comma_is(rest, i as int - start as int);
                assert(rest.take(i as int - start as int) =~= s@.subrange(
                    start as int,
                    i as int,
                ));
                assert(rest.skip(i as int - start as int + 1) =~= s@.skip(i as int + 1));
                assert(split_commas(rest) =~~= seq![s@.subrange(start as int, i as int)]
                    + split_commas(s@.skip(i as int + 1)));
            }
            let ghost old_dv = out.deep_view();
            out.push(piece);
            proof {
                assert(out.deep_view() =~~= old_dv + seq![
                    s@.subrange(start as int, i as int),
                ]);
                assert(out.deep_view() + split_commas(s@.skip(i as int + 1))
                    =~~= split_commas(s@));
            }
            start = i + 1;
        }
        i = i + 1;
    }
    let last = s.substring_char(start, n).to_owned();
    proof {
        let rest = s@.skip(start as int);
        assert forall|k: int| 0 <= k < rest.len() implies rest[k] != ',' by {
            assert(rest[k] == s@[k + start]);
        }
        lemma_first_comma_is(rest, rest.len() as int);
        assert(rest =~= s@.subrange(start as int, n as int));
        assert(split_commas(rest) =~~= seq![rest]);
    }
    let ghost old_dv = out.deep_view();
    out.push(last);
    proof {
        assert(out.deep_view() =~~= old_dv + seq![s@.skip(start as int)]);
        assert(out.deep_view() =~~= split_commas(s@));
    }
    out
}

/// The sequence with its trailing percent signs removed: the change-percent
/// field's suffix stripping.
pub open spec fn strip_percent_spec(s: Seq<char>) -> Seq<char>
    decreases s.len(),
{
    if s.len() > 0 && s[s.len() - 1] == '%' {
        strip_percent_spec(s.drop_last())
    } else {
        s
    }
}

proof fn lemma_strip_percent_take(s: Seq<char>, m: int)
    requires
        0 <= m <= s.len(),
        forall|k: int| m <= k < s.len() ==> s[k] == '%',
        m == 0 || s[m - 1] != '%',
    ensures
        strip_percent_spec(s) =~= s.take(m),
    decreases s.len(),
{
    if s.len() == m as nat {
        assert(strip_percent_spec(s) =~= s.take(m));
    } else {
        let t = s.drop_last();
        lemma_strip_percent_take(t, m);
        assert(t.take(m) =~= s.take(m));
    }
}

/// Copy of a string with its trailing percent signs removed.
pub fn strip_percent_str(s: &str) -> (r: String)
    ensures
        r@ == strip_percent_spec(s@),
{
    let n = s.unicode_len();
    let mut j: usize = n;
    while j > 0 && s.get_char(j - 1) == '%'
        invariant
            0 <= j <= n,
            n == s@.len(),
            forall|k: int| j <= k < n ==> s@[k] == '%',
        decreases j,
    {
        j = j - 1;
    }
    proof {
        lemma_strip_percent_take(s@, j as int);
        assert(s@.take(j as int) =~= s@.subrange(0, j as int));
    }
    let sub = s.substring_char(0, j);
    sub.to_owned()
}

} // verus!
