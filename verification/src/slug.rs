use vstd::prelude::*;

use crate::text::{is_whitespace, string_from_chars, trim, trim_end, trim_start, trimmed};

verus! {

/// ASCII letter or digit.
pub open spec fn is_ascii_alnum(c: char) -> bool {
    let u = c as u32;
    (0x30 <= u <= 0x39) || (0x41 <= u <= 0x5a) || (0x61 <= u <= 0x7a)
}

/// ASCII lowercase letter or digit.
pub open spec fn is_slug_char(c: char) -> bool {
    let u = c as u32;
    (0x30 <= u <= 0x39) || (0x61 <= u <= 0x7a)
}

/// ASCII uppercase letters mapped to lowercase; everything else unchanged.
pub open spec fn ascii_lower(c: char) -> char {
    let u = c as u32;
    if 0x41 <= u <= 0x5a { (u + 32) as char } else { c }
}

/// Slug building over the rest `s` of the input, given the output `out` so far
/// and whether its last character is a separator dash: letters and digits are
/// kept (lowercased); every run of other characters becomes one dash, except
/// before the first kept character.
pub open spec fn slug_steps(out: Seq<char>, last_dash: bool, s: Seq<char>) -> Seq<char>
    decreases s.len(),
{
    if s.len() == 0 {
        out
    } else if is_ascii_alnum(s[0]) {
        slug_steps(out.push(ascii_lower(s[0])), false, s.drop_first())
    } else if !last_dash && out.len() > 0 {
        slug_steps(out.push('-'), true, s.drop_first())
    } else {
        slug_steps(out, last_dash, s.drop_first())
    }
}

/// `s` without its trailing dashes.
pub open spec fn strip_trailing_dashes(s: Seq<char>) -> Seq<char>
    decreases s.len(),
{
    if s.len() > 0 && s.last() == '-' {
        strip_trailing_dashes(s.drop_last())
    } else {
        s
    }
}

/// URL-safe identifier derived from a label.
pub open spec fn spec_slugify(label: Seq<char>) -> Seq<char> {
    strip_trailing_dashes(slug_steps(Seq::empty(), false, trimmed(label)))
}

/// `s` is a well-formed slug: lowercase letters, digits and single dashes, with
/// no dash at either end.
pub open spec fn is_slug(s: Seq<char>) -> bool {
    &&& forall|i: int| 0 <= i < s.len() ==> is_slug_char(#[trigger] s[i]) || s[i] == '-'
    &&& s.len() > 0 ==> s[0] != '-' && s.last() != '-'
    &&& forall|i: int| 0 <= i < s.len() - 1 ==> !(#[trigger] s[i] == '-' && s[i + 1] == '-')
}

fn lower_ascii(c: char) -> (r: char)
    ensures
        r == ascii_lower(c),
{
    let u: u32 = c as u32;
    if 0x41 <= u && u <= 0x5a {
        ((u + 32) as u8) as char
    } else {
        c
    }
}

fn is_alnum(c: char) -> (r: bool)
    ensures
        r == is_ascii_alnum(c),
{
    let u: u32 = c as u32;
    (0x30 <= u && u <= 0x39) || (0x41 <= u && u <= 0x5a) || (0x61 <= u && u <= 0x7a)
}

/// Derives a slug from a label: trims it, keeps ASCII letters and digits
/// (lowercased), turns each run of other characters into a single dash, and
/// drops dashes at either end.
pub fn slugify(label: &str) -> (r: String)
    ensures
        r@ == spec_slugify(label@),
{
    let t = trim(label);
    let n = t.unicode_len();
    let mut out: Vec<char> = Vec::new();
    let mut last_dash = false;
    let mut i: usize = 0;
    assert(t@.subrange(0, n as int) =~= t@);
    while i < n
        invariant
            n == t@.len(),
            t@ == trimmed(label@),
            i <= n,
            slug_steps(out@, last_dash, t@.subrange(i as int, n as int))
                == slug_steps(Seq::empty(), false, t@),
        decreases n - i,
    {
        let ch = t.get_char(i);
        assert(t@.subrange(i as int, n as int).drop_first() =~= t@.subrange(i + 1, n as int));
        if is_alnum(ch) {
            out.push(lower_ascii(ch));
            last_dash = false;
        } else if !last_dash && out.len() > 0 {
            out.push('-');
            last_dash = true;
        }
        i = i + 1;
    }
    assert(t@.subrange(n as int, n as int) =~= Seq::<char>::empty());
    while out.len() > 0 && out[out.len() - 1] == '-'
        invariant
            strip_trailing_dashes(out@) == spec_slugify(label@),
        decreases out.len(),
    {
        assert(out@.drop_last() =~= out@.subrange(0, out.len() - 1));
        out.pop();
    }
    assert(strip_trailing_dashes(out@) == out@);
    string_from_chars(&out)
}

/// Output built so far by `slug_steps` is slug-shaped, and `last_dash` says
/// whether it ends in a dash.
pub open spec fn partial_slug(out: Seq<char>, last_dash: bool) -> bool {
    &&& forall|i: int| 0 <= i < out.len() ==> is_slug_char(#[trigger] out[i]) || out[i] == '-'
    &&& out.len() > 0 ==> out[0] != '-'
    &&& forall|i: int| 0 <= i < out.len() - 1 ==> !(#[trigger] out[i] == '-' && out[i + 1] == '-')
    &&& last_dash == (out.len() > 0 && out.last() == '-')
}

proof fn lemma_slug_steps_shape(out: Seq<char>, last_dash: bool, s: Seq<char>)
    requires
        partial_slug(out, last_dash),
    ensures
        partial_slug(
            slug_steps(out, last_dash, s),
            slug_steps(out, last_dash, s).len() > 0 && slug_steps(out, last_dash, s).last() == '-',
        ),
    decreases s.len(),
{
    if s.len() == 0 {
        assert(partial_slug(out, last_dash));
    } else if is_ascii_alnum(s[0]) {
        let o2 = out.push(ascii_lower(s[0]));
        assert(partial_slug(o2, false)) by {
            assert forall|i: int| 0 <= i < o2.len() - 1 implies !(#[trigger] o2[i] == '-' && o2[i + 1] == '-') by {
                if i == o2.len() - 2 {
                    assert(o2[i + 1] == ascii_lower(s[0]));
                }
            }
        }
        lemma_slug_steps_shape(o2, false, s.drop_first());
    } else if !last_dash && out.len() > 0 {
        let o2 = out.push('-');
        assert(partial_slug(o2, true)) by {
            assert forall|i: int| 0 <= i < o2.len() - 1 implies !(#[trigger] o2[i] == '-' && o2[i + 1] == '-') by {
                if i == o2.len() - 2 {
                    assert(o2[i] == out.last());
                }
            }
        }
        lemma_slug_steps_shape(o2, true, s.drop_first());
    } else {
        lemma_slug_steps_shape(out, last_dash, s.drop_first());
    }
}

proof fn lemma_strip_trailing_dashes(s: Seq<char>)
    ensures
        strip_trailing_dashes(s) == s.subrange(0, strip_trailing_dashes(s).len() as int),
        strip_trailing_dashes(s).len() <= s.len(),
        strip_trailing_dashes(s).len() > 0 ==> strip_trailing_dashes(s).last() != '-',
    decreases s.len(),
{
    if s.len() > 0 && s.last() == '-' {
        lemma_strip_trailing_dashes(s.drop_last());
        let r = strip_trailing_dashes(s.drop_last());
        assert(r =~= s.subrange(0, r.len() as int));
    } else {
        assert(s =~= s.subrange(0, s.len() as int));
    }
}

/// Every slug is well formed: lowercase ASCII letters, digits and single
/// dashes, never starting or ending with a dash.
pub proof fn lemma_slugify_well_formed(label: Seq<char>)
    ensures
        is_slug(spec_slugify(label)),
{
    let raw = slug_steps(Seq::empty(), false, trimmed(label));
    assert(partial_slug(Seq::<char>::empty(), false));
    lemma_slug_steps_shape(Seq::empty(), false, trimmed(label));
    lemma_strip_trailing_dashes(raw);
    let r = strip_trailing_dashes(raw);
    assert forall|i: int| 0 <= i < r.len() implies is_slug_char(#[trigger] r[i]) || r[i] == '-' by {
        assert(r[i] == raw[i]);
    }
    assert forall|i: int| 0 <= i < r.len() - 1 implies !(#[trigger] r[i] == '-' && r[i + 1] == '-') by {
        assert(r[i] == raw[i]);
        assert(r[i + 1] == raw[i + 1]);
    }
    if r.len() > 0 {
        assert(r[0] == raw[0]);
    }
}

proof fn lemma_slug_not_whitespace(y: Seq<char>)
    requires
        is_slug(y),
    ensures
        trimmed(y) == y,
{
    if y.len() > 0 {
        assert(is_slug_char(y[0]) || y[0] == '-');
        assert(is_slug_char(y[y.len() - 1]) || y[y.len() - 1] == '-');
    }
    assert(trim_start(y) == y);
    assert(trim_end(y) == y);
}

proof fn lemma_slug_steps_identity(y: Seq<char>, i: int)
    requires
        is_slug(y),
        0 <= i <= y.len(),
    ensures
        slug_steps(y.subrange(0, i), i > 0 && y[i - 1] == '-', y.subrange(i, y.len() as int)) == y,
    decreases y.len() - i,
{
    let rest = y.subrange(i, y.len() as int);
    if i == y.len() {
        assert(y.subrange(0, i) =~= y);
    } else {
        let c = y[i];
        assert(rest[0] == c);
        assert(rest.drop_first() =~= y.subrange(i + 1, y.len() as int));
        assert(y.subrange(0, i).push(c) =~= y.subrange(0, i + 1));
        assert(is_slug_char(c) || c == '-');
        if c == '-' {
            assert(i > 0);
            assert(y[i - 1] != '-');
            assert(y.subrange(0, i).len() > 0);
        } else {
            assert(is_ascii_alnum(c));
            assert(ascii_lower(c) == c);
        }
        lemma_slug_steps_identity(y, i + 1);
    }
}

/// Slugifying a slug gives it back unchanged.
pub proof fn lemma_slugify_idempotent(label: Seq<char>)
    ensures
        spec_slugify(spec_slugify(label)) == spec_slugify(label),
{
    let y = spec_slugify(label);
    lemma_slugify_well_formed(label);
    lemma_slug_not_whitespace(y);
    lemma_slug_steps_identity(y, 0);
    assert(y.subrange(0, 0) =~= Seq::<char>::empty());
    assert(y.subrange(0, y.len() as int) =~= y);
    if y.len() > 0 {
        assert(y.last() != '-');
    }
}

} // verus!
