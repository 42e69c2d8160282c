//! Slugs: the readable identifier derived from an article's title.
use vstd::prelude::*;

verus! {

/// The title with every space turned into a hyphen.
pub open spec fn hyphenated(s: Seq<char>) -> Seq<char> {
    s.map_values(|c: char| if c == ' ' { '-' } else { c })
}

/// What `str::to_lowercase` yields for a text.
pub uninterp spec fn lower_of(s: Seq<char>) -> Seq<char>;

/// Every character is ASCII.
pub open spec fn is_ascii_text(s: Seq<char>) -> bool {
    forall|i: int| 0 <= i < s.len() ==> (#[trigger] s[i] as int) < 128
}

pub open spec fn is_capital(c: char) -> bool {
    65 <= (c as int) && (c as int) <= 90
}

/// `r` is `s` with each ASCII capital replaced by its small letter.
pub open spec fn ascii_lowered(s: Seq<char>, r: Seq<char>) -> bool {
    &&& r.len() == s.len()
    &&& forall|i: int|
        0 <= i < s.len() ==> (#[trigger] r[i] as int) == if is_capital(s[i]) {
            (s[i] as int) + 32
        } else {
            s[i] as int
        }
}

/// Relies on str::to_lowercase: the result depends on the characters alone,
/// an empty text stays empty, and ASCII text is lower-cased letter by letter
/// into ASCII (std documents ASCII letters as mapping to their small letter
/// and other ASCII characters as unchanged).
#[verifier::external_body]
fn lowercase(s: &str) -> (r: String)
    ensures
        r@ == lower_of(s@),
        s@.len() == 0 ==> r@.len() == 0,
        is_ascii_text(s@) ==> ascii_lowered(s@, r@),
{
    s.to_lowercase()
}

/// Replaces each space of `s` by a hyphen.
pub fn hyphenate(s: &str) -> (r: String)
    ensures
        r@ == hyphenated(s@),
{
    let n = s.unicode_len();
    let mut out = String::new();
    let mut i: usize = 0;
    let hyphen = "-";
    proof {
        reveal_strlit("-");
    }
    while i < n
        invariant
            n == s@.len(),
            i <= n,
            hyphen@ == seq!['-'],
            out@ == hyphenated(s@.subrange(0, i as int)),
        decreases n - i,
    {
        let c = s.get_char(i);
        if c == ' ' {
            out.append(hyphen);
        } else {
            out.append(s.substring_char(i, i + 1));
        }
        assert(hyphenated(s@.subrange(0, i + 1)) =~= hyphenated(s@.subrange(0, i as int)).push(
            if c == ' ' { '-' } else { c },
        ));
        i = i + 1;
    }
    assert(s@.subrange(0, n as int) =~= s@);
    out
}

/// The slug of a title: spaces become hyphens, then the text is lower-cased.
pub fn create_slug(title: &str) -> (r: String)
    ensures
        r@ == lower_of(hyphenated(title@)),
        is_ascii_text(title@) ==> ascii_lowered(hyphenated(title@), r@),
        is_ascii_text(title@) ==> is_ascii_text(r@) && forall|i: int|
            0 <= i < r@.len() ==> !is_capital(#[trigger] r@[i]) && r@[i] != ' ',
{
    let h = hyphenate(title);
    proof {
        lemma_hyphenated_ascii(title@);
    }
    let r = lowercase(h.as_str());
    proof {
        if is_ascii_text(title@) {
            lemma_ascii_slug_shape(title@, r@);
        }
    }
    r
}

proof fn lemma_hyphenated_ascii(t: Seq<char>)
    ensures
        is_ascii_text(t) ==> is_ascii_text(hyphenated(t)),
        forall|i: int| 0 <= i < t.len() ==> #[trigger] hyphenated(t)[i] != ' ',
{
    assert forall|i: int| 0 <= i < t.len() implies #[trigger] hyphenated(t)[i] != ' ' by {
        assert(hyphenated(t)[i] == if t[i] == ' ' { '-' } else { t[i] });
    }
    if is_ascii_text(t) {
        assert forall|i: int| 0 <= i < hyphenated(t).len() implies (#[trigger] hyphenated(t)[i] as int)
            < 128 by {
            assert(hyphenated(t)[i] == if t[i] == ' ' { '-' } else { t[i] });
            assert((t[i] as int) < 128);
        }
    }
}

proof fn lemma_ascii_slug_shape(t: Seq<char>, r: Seq<char>)
    requires
        is_ascii_text(t),
        ascii_lowered(hyphenated(t), r),
    ensures
        is_ascii_text(r),
        forall|i: int| 0 <= i < r.len() ==> !is_capital(#[trigger] r[i]) && r[i] != ' ',
{
    lemma_hyphenated_ascii(t);
    let h = hyphenated(t);
    assert forall|i: int| 0 <= i < r.len() implies (#[trigger] r[i] as int) < 128 && !is_capital(
        r[i],
    ) && r[i] != ' ' by {
        assert(h[i] != ' ');
        assert((h[i] as int) < 128);
        if (r[i] as int) == 32 {
            assert(!is_capital(h[i]));
        }
    }
}

/// On ASCII titles a slug is its own slug: taking the slug twice gives the
/// slug once; it has no capitals and no spaces left.
pub proof fn lemma_slug_of_slug(title: Seq<char>, once: Seq<char>, twice: Seq<char>)
    requires
        is_ascii_text(title),
        ascii_lowered(hyphenated(title), once),
        ascii_lowered(hyphenated(once), twice),
    ensures
        twice == once,
{
    lemma_ascii_slug_shape(title, once);
    let h = hyphenated(once);
    assert forall|i: int| 0 <= i < once.len() implies #[trigger] h[i] == once[i] by {
        assert(once[i] != ' ');
    }
    assert forall|i: int| 0 <= i < once.len() implies #[trigger] twice[i] == once[i] by {
        assert(h[i] == once[i]);
        assert(!is_capital(h[i]));
        assert((twice[i] as int) == (once[i] as int));
    }
    assert(twice =~= once);
}

} // verus!
