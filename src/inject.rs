//! Which application may receive injected keystrokes.
//!
//! The allowlist matches application names case-insensitively: an entry
//! allows every application whose lower-cased name contains the lower-cased
//! entry. Typing the keystrokes happens outside the library.
use vstd::prelude::*;

verus! {

/// Unicode lower case of a string, as `str::to_lowercase` gives it.
pub uninterp spec fn lower_of(s: Seq<char>) -> Seq<char>;

/// Relies on str::to_lowercase: the Unicode lower case of each character,
/// which depends on the characters alone; an empty string stays empty.
#[verifier::external_body]
fn lowercase(s: &str) -> (r: String)
    ensures
        r@ == lower_of(s@),
        s@.len() == 0 ==> r@.len() == 0,
{
    s.to_lowercase()
}

/// `needle` occurs in `hay` as a contiguous run.
pub open spec fn occurs_in(hay: Seq<char>, needle: Seq<char>) -> bool {
    exists|i: int| 0 <= i && i + needle.len() <= hay.len() && #[trigger] hay.subrange(i, i + needle.len()) == needle
}

/// Some entry of `entries` occurs in `name`.
pub open spec fn some_entry_occurs(name: Seq<char>, entries: Seq<Seq<char>>) -> bool {
    exists|k: int| 0 <= k < entries.len() && occurs_in(name, #[trigger] entries[k])
}

fn occurs_at(hay: &str, needle: &str, i: usize) -> (r: bool)
    requires
        i + needle@.len() <= hay@.len(),
    ensures
        r == (hay@.subrange(i as int, i + needle@.len()) == needle@),
{
    let n = hay.unicode_len();
    let m = needle.unicode_len();
    let mut j: usize = 0;
    while j < m
        invariant
            n == hay@.len(),
            m == needle@.len(),
            i + m <= hay@.len(),
            0 <= j <= m,
            forall|t: int| 0 <= t < j ==> hay@[i + t] == needle@[t],
        decreases m - j,
    {
        if hay.get_char(i + j) != needle.get_char(j) {
            assert(hay@.subrange(i as int, i + m)[j as int] != needle@[j as int]);
            return false;
        }
        j = j + 1;
    }
    assert(hay@.subrange(i as int, i + m) =~= needle@);
    true
}

/// Whether `needle` occurs in `hay`.
pub fn contains(hay: &str, needle: &str) -> (r: bool)
    ensures
        r == occurs_in(hay@, needle@),
{
    let n = hay.unicode_len();
    let m = needle.unicode_len();
    if m > n {
        return false;
    }
    let last = n - m;
    let mut i: usize = 0;
    loop
        invariant
            n == hay@.len(),
            m == needle@.len(),
            m <= n,
            last == n - m,
            0 <= i <= last,
            forall|t: int| 0 <= t < i ==> #[trigger] hay@.subrange(t, t + m) != needle@,
        decreases last - i,
    {
        if occurs_at(hay, needle, i) {
            return true;
        }
        if i == last {
            return false;
        }
        i = i + 1;
    }
}

/// Whether an already lower-cased application name contains one of the
/// already lower-cased allowlist entries.
pub fn allowed_folded(app_lower: &str, entries_lower: &Vec<String>) -> (r: bool)
    ensures
        r == some_entry_occurs(app_lower@, entries_lower@.map_values(|e: String| e@)),
{
    let ghost entries = entries_lower@.map_values(|e: String| e@);
    let mut k: usize = 0;
    while k < entries_lower.len()
        invariant
            0 <= k <= entries_lower@.len(),
            entries == entries_lower@.map_values(|e: String| e@),
            forall|t: int| 0 <= t < k ==> !occurs_in(app_lower@, #[trigger] entries[t]),
        decreases entries_lower@.len() - k,
    {
        if contains(app_lower, entries_lower[k].as_str()) {
            assert(occurs_in(app_lower@, entries[k as int]));
            return true;
        }
        k = k + 1;
    }
    false
}

/// Whether the allowlist allows the application: its lower-cased name
/// contains a lower-cased entry.
pub fn is_allowed(allowlist: &Vec<String>, app_name: &str) -> (r: bool)
    ensures
        r == some_entry_occurs(lower_of(app_name@), allowlist@.map_values(|e: String| lower_of(e@))),
{
    let app_lower = lowercase(app_name);
    let mut entries: Vec<String> = Vec::new();
    let mut k: usize = 0;
    while k < allowlist.len()
        invariant
            0 <= k <= allowlist@.len(),
            entries@.len() == k,
            forall|t: int| 0 <= t < k ==> (#[trigger] entries@[t])@ == lower_of(allowlist@[t]@),
        decreases allowlist@.len() - k,
    {
        entries.push(lowercase(allowlist[k].as_str()));
        k = k + 1;
    }
    assert(entries@.map_values(|e: String| e@) =~= allowlist@.map_values(|e: String| lower_of(e@)));
    allowed_folded(app_lower.as_str(), &entries)
}

/// Whether text goes to the frontmost application: always with an empty
/// allowlist or when the application is unknown (empty name), otherwise only
/// when the allowlist allows it.
pub fn should_inject(allowlist: &Vec<String>, frontmost: &str) -> (r: bool)
    ensures
        allowlist@.len() == 0 || frontmost@.len() == 0 ==> r,
        allowlist@.len() > 0 && frontmost@.len() > 0 ==> r == some_entry_occurs(
            lower_of(frontmost@),
            allowlist@.map_values(|e: String| lower_of(e@)),
        ),
{
    if allowlist.len() == 0 || frontmost.unicode_len() == 0 {
        true
    } else {
        is_allowed(allowlist, frontmost)
    }
}

} // verus!
