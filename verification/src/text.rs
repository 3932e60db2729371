//! Text helpers shared by the pricing rules: Unicode whitespace, trimming,
//! and exact comparison of string slices.
use vstd::prelude::*;

verus! {

/// The Unicode `White_Space` property, the notion of whitespace that
/// trimming uses.
pub open spec fn is_white_space(c: char) -> bool {
    let u = c as u32;
    ||| 0x09 <= u <= 0x0D
    ||| u == 0x20
    ||| u == 0x85
    ||| u == 0xA0
    ||| u == 0x1680
    ||| 0x2000 <= u <= 0x200A
    ||| u == 0x2028
    ||| u == 0x2029
    ||| u == 0x202F
    ||| u == 0x205F
    ||| u == 0x3000
}

/// Every character of `s` is whitespace.
pub open spec fn all_white_space(s: Seq<char>) -> bool {
    forall|k: int| 0 <= k < s.len() ==> is_white_space(#[trigger] s[k])
}

/// `s` without its leading whitespace.
pub open spec fn trim_start(s: Seq<char>) -> Seq<char>
    decreases s.len(),
{
    if s.len() > 0 && is_white_space(s[0]) {
        trim_start(s.drop_first())
    } else {
        s
    }
}

/// `s` without its trailing whitespace.
pub open spec fn trim_end(s: Seq<char>) -> Seq<char>
    decreases s.len(),
{
    if s.len() > 0 && is_white_space(s.last()) {
        trim_end(s.drop_last())
    } else {
        s
    }
}

/// `s` without its leading and trailing whitespace.
pub open spec fn trimmed(s: Seq<char>) -> Seq<char> {
    trim_end(trim_start(s))
}

proof fn lemma_trim_start_drops_white_prefix(p: Seq<char>, s: Seq<char>)
    requires
        all_white_space(p),
    ensures
        trim_start(p + s) == trim_start(s),
    decreases p.len(),
{
    if p.len() == 0 {
        assert(p + s =~= s);
    } else {
        assert((p + s)[0] == p[0]);
        assert((p + s).drop_first() =~= p.drop_first() + s);
        assert(all_white_space(p.drop_first())) by {
            assert forall|k: int| 0 <= k < p.drop_first().len() implies is_white_space(
                #[trigger] p.drop_first()[k],
            ) by {
                assert(p.drop_first()[k] == p[k + 1]);
            }
        }
        lemma_trim_start_drops_white_prefix(p.drop_first(), s);
    }
}

proof fn lemma_trim_end_drops_white_suffix(s: Seq<char>, q: Seq<char>)
    requires
        all_white_space(q),
    ensures
        trim_end(s + q) == trim_end(s),
    decreases q.len(),
{
    if q.len() == 0 {
        assert(s + q =~= s);
    } else {
        assert((s + q).last() == q.last());
        assert((s + q).drop_last() =~= s + q.drop_last());
        assert(all_white_space(q.drop_last())) by {
            assert forall|k: int| 0 <= k < q.drop_last().len() implies is_white_space(
                #[trigger] q.drop_last()[k],
            ) by {
                assert(q.drop_last()[k] == q[k]);
            }
        }
        lemma_trim_end_drops_white_suffix(s, q.drop_last());
    }
}

proof fn lemma_trim_start_of_white_is_empty(q: Seq<char>)
    requires
        all_white_space(q),
    ensures
        trim_start(q) == Seq::<char>::empty(),
{
    lemma_trim_start_drops_white_prefix(q, Seq::<char>::empty());
    assert(q + Seq::<char>::empty() =~= q);
    assert(trim_start(Seq::<char>::empty()) =~= Seq::<char>::empty());
}

proof fn lemma_trimmed_ignores_white_suffix(s: Seq<char>, q: Seq<char>)
    requires
        all_white_space(q),
    ensures
        trim_end(trim_start(s + q)) == trim_end(trim_start(s)),
    decreases s.len(),
{
    if s.len() == 0 {
        assert(s + q =~= q);
        lemma_trim_start_of_white_is_empty(q);
    } else if is_white_space(s[0]) {
        assert((s + q)[0] == s[0]);
        assert((s + q).drop_first() =~= s.drop_first() + q);
        lemma_trimmed_ignores_white_suffix(s.drop_first(), q);
    } else {
        assert((s + q)[0] == s[0]);
        lemma_trim_end_drops_white_suffix(s, q);
    }
}

/// Whitespace before and after a text does not change what trimming gives.
pub proof fn lemma_trimmed_ignores_padding(p: Seq<char>, s: Seq<char>, q: Seq<char>)
    requires
        all_white_space(p),
        all_white_space(q),
    ensures
        trimmed(p + s + q) == trimmed(s),
{
    assert(p + s + q =~= p + (s + q));
    lemma_trim_start_drops_white_prefix(p, s + q);
    lemma_trimmed_ignores_white_suffix(s, q);
}

/// Whether `c` is Unicode whitespace.
pub fn is_white_space_char(c: char) -> (r: bool)
    ensures
        r == is_white_space(c),
{
    let u = c as u32;
    (0x09 <= u && u <= 0x0D) || u == 0x20 || u == 0x85 || u == 0xA0 || u == 0x1680 || (0x2000
        <= u && u <= 0x200A) || u == 0x2028 || u == 0x2029 || u == 0x202F || u == 0x205F || u
        == 0x3000
}

/// `s` with its leading and trailing whitespace removed.
pub fn trim_text(s: &str) -> (r: &str)
    ensures
        r@ == trimmed(s@),
{
    let n = s.unicode_len();
    let ghost full = s@;
    let mut i: usize = 0;
    assert(full.subrange(0, n as int) =~= full);
    while i < n && is_white_space_char(s.get_char(i))
        invariant
            n == full.len(),
            full == s@,
            i <= n,
            trim_start(full) == trim_start(full.subrange(i as int, n as int)),
        decreases n - i,
    {
        proof {
            let rest = full.subrange(i as int, n as int);
            assert(rest.drop_first() =~= full.subrange(i + 1, n as int));
        }
        i = i + 1;
    }
    proof {
        let rest = full.subrange(i as int, n as int);
        assert(trim_start(rest) == rest);
    }
    let mut j: usize = n;
    while j > i && is_white_space_char(s.get_char(j - 1))
        invariant
            n == full.len(),
            full == s@,
            i <= j <= n,
            trim_start(full) == full.subrange(i as int, n as int),
            trim_end(full.subrange(i as int, n as int)) == trim_end(
                full.subrange(i as int, j as int),
            ),
        decreases j - i,
    {
        proof {
            let part = full.subrange(i as int, j as int);
            assert(part.drop_last() =~= full.subrange(i as int, j - 1));
        }
        j = j - 1;
    }
    proof {
        let part = full.subrange(i as int, j as int);
        assert(trim_end(part) == part);
    }
    s.substring_char(i, j)
}

/// Whether two string slices hold the same characters.
pub fn text_equals(a: &str, b: &str) -> (r: bool)
    ensures
        r == (a@ == b@),
{
    let n = a.unicode_len();
    if n != b.unicode_len() {
        return false;
    }
    let mut i: usize = 0;
    while i < n
        invariant
            n == a@.len(),
            n == b@.len(),
            i <= n,
            forall|k: int| 0 <= k < i ==> a@[k] == b@[k],
        decreases n - i,
    {
        if a.get_char(i) != b.get_char(i) {
            return false;
        }
        i = i + 1;
    }
    assert(a@ =~= b@);
    true
}

proof fn lemma_trim_start_shape(s: Seq<char>) -> (i: int)
    ensures
        0 <= i <= s.len(),
        trim_start(s) == s.subrange(i, s.len() as int),
        all_white_space(s.subrange(0, i)),
        i < s.len() ==> !is_white_space(s[i]),
    decreases s.len(),
{
    if s.len() > 0 && is_white_space(s[0]) {
        let k = lemma_trim_start_shape(s.drop_first());
        assert(s.drop_first().subrange(k, s.drop_first().len() as int) =~= s.subrange(
            k + 1,
            s.len() as int,
        ));
        assert forall|m: int| 0 <= m < k + 1 implies is_white_space(
            #[trigger] s.subrange(0, k + 1)[m],
        ) by {
            if m > 0 {
                assert(s.subrange(0, k + 1)[m] == s.drop_first().subrange(0, k)[m - 1]);
            }
        }
        k + 1
    } else {
        assert(s.subrange(0, s.len() as int) =~= s);
        0
    }
}

proof fn lemma_trim_end_shape(s: Seq<char>) -> (j: int)
    ensures
        0 <= j <= s.len(),
        trim_end(s) == s.subrange(0, j),
        all_white_space(s.subrange(j, s.len() as int)),
        j > 0 ==> !is_white_space(s[j - 1]),
    decreases s.len(),
{
    if s.len() > 0 && is_white_space(s.last()) {
        let k = lemma_trim_end_shape(s.drop_last());
        assert(s.drop_last().subrange(0, k) =~= s.subrange(0, k));
        assert forall|m: int| 0 <= m < s.len() - k implies is_white_space(
            #[trigger] s.subrange(k, s.len() as int)[m],
        ) by {
            if m < s.len() - 1 - k {
                assert(s.subrange(k, s.len() as int)[m] == s.drop_last().subrange(
                    k,
                    s.drop_last().len() as int,
                )[m]);
            }
        }
        k
    } else {
        assert(s.subrange(0, s.len() as int) =~= s);
        s.len() as int
    }
}

/// Trimming keeps a contiguous part of the text: what it removes before and
/// after is all whitespace, and what it keeps neither starts nor ends with
/// whitespace.
pub proof fn trimmed_is_inner_part(s: Seq<char>)
    ensures
        exists|i: int, j: int|
            #![trigger s.subrange(i, j)]
            {
                &&& 0 <= i <= j <= s.len()
                &&& trimmed(s) == s.subrange(i, j)
                &&& all_white_space(s.subrange(0, i))
                &&& all_white_space(s.subrange(j, s.len() as int))
                &&& i < j ==> !is_white_space(s[i]) && !is_white_space(s[j - 1])
            },
{
    let i = lemma_trim_start_shape(s);
    let rest = s.subrange(i, s.len() as int);
    let k = lemma_trim_end_shape(rest);
    let j = i + k;
    assert(rest.subrange(0, k) =~= s.subrange(i, j));
    assert(rest.subrange(k, rest.len() as int) =~= s.subrange(j, s.len() as int));
    if i < j {
        assert(rest[0] == s[i]);
        assert(rest[k - 1] == s[j - 1]);
    }
    assert(s.subrange(i, j) == s.subrange(i, j));
}

} // verus!
