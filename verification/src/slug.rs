//! URL slugs for product names: lowercase ASCII letters and digits, with single dashes
//! between the words.

use vstd::prelude::*;

use crate::text::{
    all_ascii, ascii_lower_spec, chars_of, is_ascii_alnum,
    is_ascii_alphanumeric, is_unicode_whitespace, no_ascii_upper, to_lowercase, trim,
    trim_char_chars, trim_char_spec, trim_end_char_spec, trim_end_spec, trim_spec,
    trim_start_char_spec, trim_start_spec, unicode_lowercase,
};

verus! {

/// `s` with every ASCII letter and digit kept and every run of other characters
/// replaced by one dash.
pub open spec fn collapse_separators(s: Seq<char>) -> Seq<char>
    decreases s.len(),
{
    if s.len() == 0 {
        Seq::<char>::empty()
    } else {
        let r = collapse_separators(s.drop_last());
        let c = s.last();
        if is_ascii_alnum(c) {
            r.push(c)
        } else if r.len() > 0 && r.last() == '-' {
            r
        } else {
            r.push('-')
        }
    }
}

/// The slug of an already lowercased text: separators collapsed, no dash at either end.
pub open spec fn slug_spec(s: Seq<char>) -> Seq<char> {
    trim_char_spec(collapse_separators(s), '-')
}

/// Every character is an ASCII letter, digit or dash, and no two dashes are adjacent.
pub open spec fn dash_separated(t: Seq<char>) -> bool {
    &&& forall|i: int| 0 <= i < t.len() ==> is_ascii_alnum(#[trigger] t[i]) || t[i] == '-'
    &&& forall|i: int| 0 <= i < t.len() - 1 ==> !(#[trigger] t[i] == '-' && t[i + 1] == '-')
}

/// A slug: dash-separated, and neither starting nor ending with a dash.
pub open spec fn is_slug(t: Seq<char>) -> bool {
    &&& dash_separated(t)
    &&& t.len() > 0 ==> t[0] != '-' && t.last() != '-'
}

proof fn lemma_collapse_dash_separated(s: Seq<char>)
    ensures
        dash_separated(collapse_separators(s)),
    decreases s.len(),
{
    if s.len() > 0 {
        lemma_collapse_dash_separated(s.drop_last());
        let r = collapse_separators(s.drop_last());
        let c = s.last();
        if is_ascii_alnum(c) {
            assert(c != '-');
            let t = r.push(c);
            assert forall|i: int| 0 <= i < t.len() - 1 implies !(#[trigger] t[i] == '-' && t[i + 1]
                == '-') by {
                if i < r.len() - 1 {
                    assert(t[i] == r[i] && t[i + 1] == r[i + 1]);
                }
            }
        } else if !(r.len() > 0 && r.last() == '-') {
            let t = r.push('-');
            assert forall|i: int| 0 <= i < t.len() - 1 implies !(#[trigger] t[i] == '-' && t[i + 1]
                == '-') by {
                if i < r.len() - 1 {
                    assert(t[i] == r[i] && t[i + 1] == r[i + 1]);
                } else {
                    assert(t[i] == r.last());
                }
            }
        }
    }
}

proof fn lemma_trim_end_dash_keeps(t: Seq<char>)
    requires
        dash_separated(t),
    ensures
        dash_separated(trim_end_char_spec(t, '-')),
        trim_end_char_spec(t, '-').len() > 0 ==> trim_end_char_spec(t, '-').last() != '-',
        exists|k: int| 0 <= k <= t.len() && trim_end_char_spec(t, '-') == #[trigger] t.subrange(0, k),
    decreases t.len(),
{
    if t.len() > 0 && t.last() == '-' {
        let u = t.drop_last();
        assert(dash_separated(u)) by {
            assert forall|i: int| 0 <= i < u.len() - 1 implies !(#[trigger] u[i] == '-' && u[i + 1]
                == '-') by {
                assert(u[i] == t[i] && u[i + 1] == t[i + 1]);
            }
        }
        lemma_trim_end_dash_keeps(u);
        let k = choose|k: int| 0 <= k <= u.len() && trim_end_char_spec(u, '-') == #[trigger] u.subrange(0, k);
        assert(u.subrange(0, k) == t.subrange(0, k));
    } else {
        assert(t.subrange(0, t.len() as int) == t);
    }
}

proof fn lemma_trim_start_dash_keeps(t: Seq<char>)
    requires
        dash_separated(t),
        t.len() > 0 ==> t.last() != '-',
    ensures
        is_slug(trim_start_char_spec(t, '-')),
    decreases t.len(),
{
    if t.len() > 0 && t[0] == '-' {
        let u = t.drop_first();
        assert(dash_separated(u)) by {
            assert forall|i: int| 0 <= i < u.len() - 1 implies !(#[trigger] u[i] == '-' && u[i + 1]
                == '-') by {
                assert(u[i] == t[i + 1] && u[i + 1] == t[i + 2]);
            }
        }
        lemma_trim_start_dash_keeps(u);
    }
}

proof fn lemma_slug_is_slug(s: Seq<char>)
    ensures
        is_slug(slug_spec(s)),
{
    lemma_collapse_dash_separated(s);
    let t = collapse_separators(s);
    lemma_trim_end_dash_keeps(t);
    let e = trim_end_char_spec(t, '-');
    let k = choose|k: int| 0 <= k <= t.len() && e == #[trigger] t.subrange(0, k);
    lemma_trim_start_dash_keeps(e);
}

proof fn lemma_collapse_fixes_leading_clean(u: Seq<char>)
    requires
        dash_separated(u),
        u.len() > 0 ==> u[0] != '-',
    ensures
        collapse_separators(u) == u,
    decreases u.len(),
{
    if u.len() > 0 {
        let p = u.drop_last();
        assert(dash_separated(p)) by {
            assert forall|i: int| 0 <= i < p.len() - 1 implies !(#[trigger] p[i] == '-' && p[i + 1]
                == '-') by {
                assert(p[i] == u[i] && p[i + 1] == u[i + 1]);
            }
        }
        lemma_collapse_fixes_leading_clean(p);
        let c = u.last();
        if !is_ascii_alnum(c) {
            assert(c == '-');
            assert(u.len() >= 2);
            assert(p.last() == u[u.len() - 2]);
            assert(p.last() != '-');
        }
        assert(p.push(c) == u);
    }
}

/// Law: a slug is its own slug, so slugifying twice gives what slugifying once gives.
pub proof fn slug_is_idempotent(s: Seq<char>)
    ensures
        slug_spec(slug_spec(s)) == slug_spec(s),
{
    lemma_slug_is_slug(s);
    let t = slug_spec(s);
    lemma_collapse_fixes_leading_clean(t);
    if t.len() > 0 {
        assert(t.last() != '-');
        assert(trim_end_char_spec(t, '-') == t);
        assert(t[0] != '-');
        assert(trim_start_char_spec(t, '-') == t);
    } else {
        assert(trim_end_char_spec(t, '-') == t);
        assert(trim_start_char_spec(t, '-') == t);
    }
}

/// Law: every slug is made of ASCII letters, digits and single dashes between them.
pub proof fn slug_is_well_formed(s: Seq<char>)
    ensures
        is_slug(slug_spec(s)),
{
    lemma_slug_is_slug(s);
}

/// The slug of a text that is already lowercase and trimmed.
pub fn slug_from_lowercase(lowered: &str) -> (res: String)
    ensures
        res@ == slug_spec(lowered@),
{
    let cs = chars_of(lowered);
    let mut out: Vec<char> = Vec::new();
    let mut last_dash = false;
    let mut i: usize = 0;
    while i < cs.len()
        invariant
            i <= cs.len(),
            out@ == collapse_separators(cs@.take(i as int)),
            last_dash == (out@.len() > 0 && out@.last() == '-'),
        decreases cs.len() - i,
    {
        let ch = cs[i];
        assert(cs@.take(i + 1).drop_last() == cs@.take(i as int));
        assert(cs@.take(i + 1).last() == ch);
        if is_ascii_alphanumeric(ch) {
            out.push(ch);
            last_dash = false;
        } else if !last_dash {
            out.push('-');
            last_dash = true;
        }
        i = i + 1;
    }
    assert(cs@.take(cs.len() as int) == lowered@);
    trim_char_chars(&out, '-')
}

/// A slug without ASCII capitals: lowercase letters, digits and single inner dashes.
pub open spec fn is_lowercase_slug(t: Seq<char>) -> bool {
    is_slug(t) && no_ascii_upper(t)
}

proof fn lemma_collapse_keeps_lowercase(s: Seq<char>)
    requires
        no_ascii_upper(s),
    ensures
        no_ascii_upper(collapse_separators(s)),
    decreases s.len(),
{
    if s.len() > 0 {
        let p = s.drop_last();
        assert(no_ascii_upper(p)) by {
            assert forall|i: int| 0 <= i < p.len() implies !('A' <= #[trigger] p[i] && p[i] <= 'Z') by {
                assert(p[i] == s[i]);
            }
        }
        lemma_collapse_keeps_lowercase(p);
        assert(s.last() == s[s.len() - 1]);
        let r = collapse_separators(p);
        let t = collapse_separators(s);
        assert forall|i: int| 0 <= i < t.len() implies !('A' <= #[trigger] t[i] && t[i] <= 'Z') by {
            if i < r.len() {
                assert(t[i] == r[i]);
            }
        }
    }
}

proof fn lemma_trim_dashes_keep_lowercase(s: Seq<char>)
    requires
        no_ascii_upper(s),
    ensures
        no_ascii_upper(trim_end_char_spec(s, '-')),
        no_ascii_upper(trim_start_char_spec(s, '-')),
    decreases s.len(),
{
    if s.len() > 0 {
        let p = s.drop_last();
        assert(no_ascii_upper(p)) by {
            assert forall|i: int| 0 <= i < p.len() implies !('A' <= #[trigger] p[i] && p[i] <= 'Z') by {
                assert(p[i] == s[i]);
            }
        }
        let q = s.drop_first();
        assert(no_ascii_upper(q)) by {
            assert forall|i: int| 0 <= i < q.len() implies !('A' <= #[trigger] q[i] && q[i] <= 'Z') by {
                assert(q[i] == s[i + 1]);
            }
        }
        lemma_trim_dashes_keep_lowercase(p);
        lemma_trim_dashes_keep_lowercase(q);
    }
}

proof fn lemma_slug_keeps_lowercase(s: Seq<char>)
    requires
        no_ascii_upper(s),
    ensures
        no_ascii_upper(slug_spec(s)),
{
    lemma_collapse_keeps_lowercase(s);
    let t = collapse_separators(s);
    lemma_trim_dashes_keep_lowercase(t);
    lemma_trim_dashes_keep_lowercase(trim_end_char_spec(t, '-'));
}

/// Law: a lowercase slug is ASCII, untouched by trimming and by ASCII lowercasing, and
/// is its own slug; so `slugify` (whose lowercasing of an ASCII text is ASCII
/// lowercasing) gives back any lowercase slug, its own results included.
pub proof fn slugify_fixes_lowercase_slugs(t: Seq<char>)
    requires
        is_lowercase_slug(t),
    ensures
        all_ascii(t),
        trim_spec(t) == t,
        ascii_lower_spec(t) == t,
        slug_spec(ascii_lower_spec(trim_spec(t))) == t,
{
    assert forall|i: int| 0 <= i < t.len() implies (#[trigger] t[i] as u32) < 128 by {
        assert(is_ascii_alnum(t[i]) || t[i] == '-');
    }
    if t.len() > 0 {
        assert(is_ascii_alnum(t[0]) || t[0] == '-');
        assert(!is_unicode_whitespace(t[0]));
        assert(trim_start_spec(t) == t);
        assert(is_ascii_alnum(t.last()) || t.last() == '-');
        assert(t.last() == t[t.len() - 1]);
        assert(!is_unicode_whitespace(t.last()));
        assert(trim_end_spec(t) == t);
    } else {
        assert(trim_start_spec(t) == t);
        assert(trim_end_spec(t) == t);
    }
    assert(ascii_lower_spec(t) =~= t) by {
        assert forall|i: int| 0 <= i < t.len() implies #[trigger] ascii_lower_spec(t)[i] == t[i] by {
            assert(!('A' <= t[i] && t[i] <= 'Z'));
        }
    }
    lemma_collapse_fixes_leading_clean(t);
    assert(trim_end_char_spec(t, '-') == t) by {
        if t.len() > 0 {
            assert(t.last() != '-');
        }
    }
    assert(trim_start_char_spec(t, '-') == t) by {
        if t.len() > 0 {
            assert(t[0] != '-');
        }
    }
}

/// The slug of a product name: trimmed, lowercased, then reduced to ASCII letters and
/// digits with single dashes between words.
pub fn slugify(input: &str) -> (res: String)
    ensures
        res@ == slug_spec(unicode_lowercase(trim_spec(input@))),
        is_lowercase_slug(res@),
        all_ascii(trim_spec(input@)) ==> res@ == slug_spec(ascii_lower_spec(trim_spec(input@))),
{
    let trimmed = trim(input);
    let lowered = to_lowercase(trimmed.as_str());
    let res = slug_from_lowercase(lowered.as_str());
    proof {
        lemma_slug_is_slug(lowered@);
        lemma_slug_keeps_lowercase(lowered@);
    }
    res
}

} // verus!
