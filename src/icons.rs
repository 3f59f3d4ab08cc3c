//! Selecting dashboard icons whose name, aliases or categories contain a query,
//! ignoring case.

use vstd::prelude::*;

verus! {

pub const CDN_BASE: &'static str = "https://cdn.jsdelivr.net/gh/homarr-labs/dashboard-icons";

pub const MAX_RESULTS: usize = 20;

/// What `str::to_lowercase` returns for the characters `s`.
pub uninterp spec fn lower_of(s: Seq<char>) -> Seq<char>;

/// Relies on str::to_lowercase: the result depends on the characters alone.
#[verifier::external_body]
fn lowercase(s: &str) -> (r: String)
    ensures
        r@ == lower_of(s@),
{
    s.to_lowercase()
}

/// Whether `needle` occurs in `hay` as a contiguous run.
pub open spec fn occurs_in(needle: Seq<char>, hay: Seq<char>) -> bool {
    exists|i: int|
        0 <= i && i + needle.len() <= hay.len() && #[trigger] hay.subrange(i, i + needle.len())
            == needle
}

/// Whether `needle` occurs in `hay` starting at `i`.
fn occurs_at(needle: &str, hay: &str, i: usize) -> (r: bool)
    requires
        i + needle@.len() <= hay@.len() <= usize::MAX,
    ensures
        r == (hay@.subrange(i as int, i + needle@.len()) == needle@),
{
    let n = needle.unicode_len();
    let mut j: usize = 0;
    while j < n
        invariant
            n == needle@.len(),
            i + n <= hay@.len() <= usize::MAX,
            j <= n,
            forall|k: int| 0 <= k < j ==> hay@[i + k] == needle@[k],
        decreases n - j,
    {
        if hay.get_char(i + j) != needle.get_char(j) {
            assert(hay@.subrange(i as int, i + n)[j as int] != needle@[j as int]);
            return false;
        }
        j = j + 1;
    }
    assert(hay@.subrange(i as int, i + n) =~= needle@);
    true
}

/// Whether `needle` occurs anywhere in `hay`.
pub fn contains_text(hay: &str, needle: &str) -> (r: bool)
    ensures
        r == occurs_in(needle@, hay@),
{
    let n = needle.unicode_len();
    let h = hay.unicode_len();
    if n > h {
        return false;
    }
    let mut i: usize = 0;
    while i <= h - n
        invariant
            n == needle@.len(),
            h == hay@.len(),
            n <= h,
            i <= h - n + 1,
            forall|k: int| 0 <= k < i ==> #[trigger] hay@.subrange(k, k + n) != needle@,
        decreases h - n + 1 - i,
    {
        if occurs_at(needle, hay, i) {
            return true;
        }
        if i == h - n {
            return false;
        }
        i = i + 1;
    }
    false
}

/// An icon of the catalogue with the words it can be found by.
pub struct IconEntry {
    pub name: String,
    pub aliases: Vec<String>,
    pub categories: Vec<String>,
}

pub struct DashboardIcon {
    pub name: String,
    pub png_url: String,
}

pub struct IconSearchResponse {
    pub icons: Vec<DashboardIcon>,
}

/// Whether some word of `words`, lowercased, contains `q`.
pub open spec fn any_word_matches(words: Seq<String>, q: Seq<char>) -> bool {
    exists|k: int| 0 <= k < words.len() && occurs_in(q, #[trigger] lower_of(words[k]@))
}

/// Whether an icon matches the lowercased query `q`.
pub open spec fn icon_matches(e: IconEntry, q: Seq<char>) -> bool {
    occurs_in(q, lower_of(e.name@)) || any_word_matches(e.aliases@, q) || any_word_matches(
        e.categories@,
        q,
    )
}

/// Names of the entries of `s` that match `q`, in order.
pub open spec fn matching_names(s: Seq<IconEntry>, q: Seq<char>) -> Seq<Seq<char>>
    decreases s.len(),
{
    if s.len() == 0 {
        Seq::empty()
    } else {
        let rest = matching_names(s.drop_last(), q);
        if icon_matches(s.last(), q) { rest.push(s.last().name@) } else { rest }
    }
}

/// The address of an icon's PNG image.
pub open spec fn png_url_of(name: Seq<char>) -> Seq<char> {
    CDN_BASE@ + "/png/"@ + name + ".png"@
}

proof fn lemma_matching_prefix(s: Seq<IconEntry>, q: Seq<char>, i: int, j: int)
    requires
        0 <= i <= j <= s.len(),
    ensures
        matching_names(s.subrange(0, i), q).len() <= matching_names(s.subrange(0, j), q).len(),
        matching_names(s.subrange(0, i), q) == matching_names(s.subrange(0, j), q).subrange(
            0,
            matching_names(s.subrange(0, i), q).len() as int,
        ),
    decreases j - i,
{
    if i < j {
        lemma_matching_prefix(s, q, i, j - 1);
        assert(s.subrange(0, j).drop_last() == s.subrange(0, j - 1));
        let a = matching_names(s.subrange(0, i), q);
        let b = matching_names(s.subrange(0, j - 1), q);
        let c = matching_names(s.subrange(0, j), q);
        assert(b == c.subrange(0, b.len() as int));
        assert(a == b.subrange(0, a.len() as int));
        assert(a == c.subrange(0, a.len() as int));
    }
}

/// Whether any word of `words`, lowercased, contains `q`.
fn any_word_contains(words: &Vec<String>, q: &str) -> (r: bool)
    ensures
        r == any_word_matches(words@, q@),
{
    let mut k: usize = 0;
    while k < words.len()
        invariant
            k <= words@.len(),
            forall|m: int| 0 <= m < k ==> !occurs_in(q@, #[trigger] lower_of(words@[m]@)),
        decreases words@.len() - k,
    {
        let w = lowercase(words[k].as_str());
        if contains_text(w.as_str(), q) {
            return true;
        }
        k = k + 1;
    }
    false
}

/// Whether `e` matches the already lowercased query `q`.
pub fn entry_matches(e: &IconEntry, q: &str) -> (r: bool)
    ensures
        r == icon_matches(*e, q@),
{
    let name = lowercase(e.name.as_str());
    contains_text(name.as_str(), q) || any_word_contains(&e.aliases, q) || any_word_contains(
        &e.categories,
        q,
    )
}

/// The icons among `entries` that match the already lowercased query `q`, in
/// order, at most `MAX_RESULTS` of them.
pub fn select_matching(entries: &Vec<IconEntry>, q: &str) -> (r: IconSearchResponse)
    ensures
        r.icons@.len() == if matching_names(entries@, q@).len() < MAX_RESULTS {
            matching_names(entries@, q@).len()
        } else {
            MAX_RESULTS as nat
        },
        forall|k: int|
            0 <= k < r.icons@.len() ==> (#[trigger] r.icons@[k]).name@ == matching_names(
                entries@,
                q@,
            )[k] && r.icons@[k].png_url@ == png_url_of(r.icons@[k].name@),
{
    let mut icons: Vec<DashboardIcon> = Vec::new();
    let mut i: usize = 0;
    while i < entries.len() && icons.len() < MAX_RESULTS
        invariant
            i <= entries@.len(),
            icons@.len() <= MAX_RESULTS,
            icons@.len() == matching_names(entries@.subrange(0, i as int), q@).len(),
            forall|k: int|
                0 <= k < icons@.len() ==> (#[trigger] icons@[k]).name@ == matching_names(
                    entries@.subrange(0, i as int),
                    q@,
                )[k] && icons@[k].png_url@ == png_url_of(icons@[k].name@),
        decreases entries@.len() - i,
    {
        let e = &entries[i];
        assert(entries@.subrange(0, i as int + 1).drop_last() == entries@.subrange(0, i as int));
        assert(entries@.subrange(0, i as int + 1).last() == e);
        if entry_matches(e, q) {
            let mut url = String::from_str(CDN_BASE);
            url.append("/png/");
            url.append(e.name.as_str());
            url.append(".png");
            icons.push(DashboardIcon { name: e.name.clone(), png_url: url });
        }
        i = i + 1;
    }
    proof {
        let all = matching_names(entries@, q@);
        let pre = matching_names(entries@.subrange(0, i as int), q@);
        assert(entries@.subrange(0, entries@.len() as int) == entries@);
        lemma_matching_prefix(entries@, q@, i as int, entries@.len() as int);
        if i < entries@.len() {
            assert(icons@.len() == MAX_RESULTS);
        }
        assert(pre == all.subrange(0, pre.len() as int));
    }
    IconSearchResponse { icons }
}

/// Searches `entries` for `query`, ignoring case: the icons whose name, or one
/// of whose aliases or categories, contains the lowercased query.
pub fn search_icons(entries: &Vec<IconEntry>, query: &str) -> (r: IconSearchResponse)
    ensures
        r.icons@.len() == if matching_names(entries@, lower_of(query@)).len() < MAX_RESULTS {
            matching_names(entries@, lower_of(query@)).len()
        } else {
            MAX_RESULTS as nat
        },
        forall|k: int|
            0 <= k < r.icons@.len() ==> (#[trigger] r.icons@[k]).name@ == matching_names(
                entries@,
                lower_of(query@),
            )[k] && r.icons@[k].png_url@ == png_url_of(r.icons@[k].name@),
{
    let q = lowercase(query);
    select_matching(entries, q.as_str())
}

} // verus!
