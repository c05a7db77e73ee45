//! Provider discovery results and the matching logic over them. The
//! enumeration of installed providers is the platform's own API and is
//! left to the caller, which hands the list in as plain values.

use vstd::prelude::*;
use vstd::string::StrSliceExecFns;
use crate::guid::{guid_parse, parse_guid};
use crate::text::{contains_sub, contains_substring, lower_of, to_lowercase};

verus! {

/// How a provider was registered.
#[derive(Debug, Clone, Copy, PartialEq, Eq, Structural)]
pub enum ProviderSource {
    /// XML manifest-based provider.
    Xml,
    /// MOF-based provider (legacy).
    Mof,
    /// Unknown source.
    Unknown,
}

/// One installed provider.
#[derive(Debug, Clone)]
pub struct ProviderInfo {
    /// Provider GUID.
    pub guid: u128,
    /// Provider name.
    pub name: String,
    /// How the provider was registered.
    pub source: ProviderSource,
}

/// Detailed provider information.
#[derive(Debug, Clone)]
pub struct ProviderDetails {
    /// The provider's identity.
    pub info: ProviderInfo,
    /// Named keyword bits, where the platform reports them.
    pub keywords: Vec<(String, u64)>,
}

/// Whether a provider's name contains the keyword, both case-folded.
pub open spec fn name_contains(p: ProviderInfo, keyword: Seq<char>) -> bool {
    contains_sub(lower_of(p.name@), lower_of(keyword))
}

/// The providers whose names contain the keyword, in their given order.
pub open spec fn search_result(ps: Seq<ProviderInfo>, keyword: Seq<char>) -> Seq<ProviderInfo>
    decreases ps.len(),
{
    if ps.len() == 0 {
        Seq::empty()
    } else {
        (if name_contains(ps[0], keyword) {
            seq![ps[0]]
        } else {
            Seq::<ProviderInfo>::empty()
        }) + search_result(ps.skip(1), keyword)
    }
}

/// Case-insensitive (ASCII) folding of one character.
pub open spec fn ascii_lower(c: char) -> char {
    if 'A' <= c <= 'Z' {
        ((c as u8) + 32) as char
    } else {
        c
    }
}

/// Case-insensitive (ASCII) equality of two texts.
pub open spec fn eq_ignore_ascii(a: Seq<char>, b: Seq<char>) -> bool {
    a.len() == b.len() && forall|i: int|
        0 <= i < a.len() ==> ascii_lower(#[trigger] a[i]) == ascii_lower(b[i])
}

/// Compare two strings, ignoring ASCII case.
pub fn eq_ignore_ascii_case(a: &str, b: &str) -> (r: bool)
    ensures
        r == eq_ignore_ascii(a@, b@),
{
    let alen = a.unicode_len();
    let blen = b.unicode_len();
    if alen != blen {
        return false;
    }
    let mut i: usize = 0;
    while i < alen
        invariant
            alen == a@.len(),
            blen == b@.len(),
            alen == blen,
            i <= alen,
            forall|j: int| 0 <= j < i ==> ascii_lower(#[trigger] a@[j]) == ascii_lower(b@[j]),
        decreases alen - i,
    {
        let ca = fold_ascii_char(a.get_char(i));
        let cb = fold_ascii_char(b.get_char(i));
        if ca != cb {
            return false;
        }
        i += 1;
    }
    true
}

/// Fold one character to ASCII lowercase.
fn fold_ascii_char(c: char) -> (r: char)
    ensures
        r == ascii_lower(c),
{
    let code: u32 = c as u32;
    if code >= 65 && code <= 90 {
        ((code + 32) as u8) as char
    } else {
        c
    }
}

/// Copy a provider record.
fn copy_provider(p: &ProviderInfo) -> (r: ProviderInfo)
    ensures
        r == *p,
{
    ProviderInfo { guid: p.guid, name: p.name.clone(), source: p.source }
}

/// Which provider `find_provider` picks for a query: a query that
/// parses as a GUID picks the first provider with that GUID; any other
/// query picks the first whose name equals it ignoring ASCII case.
pub open spec fn find_spec(ps: Seq<ProviderInfo>, query: Seq<char>) -> Option<ProviderInfo>
    decreases ps.len(),
{
    if ps.len() == 0 {
        None
    } else if query_matches(ps[0], query) {
        Some(ps[0])
    } else {
        find_spec(ps.skip(1), query)
    }
}

/// Whether one provider answers the query.
pub open spec fn query_matches(p: ProviderInfo, query: Seq<char>) -> bool {
    match guid_parse(query) {
        Some(g) => p.guid == g,
        None => eq_ignore_ascii(p.name@, query),
    }
}

/// Keep the providers whose names contain `keyword`, case-insensitively.
pub fn search_provider_list(providers: Vec<ProviderInfo>, keyword: &str) -> (r: Vec<ProviderInfo>)
    ensures
        r@ == search_result(providers@, keyword@),
{
    let mut out: Vec<ProviderInfo> = Vec::new();
    let mut i: usize = 0;
    proof {
        assert(providers@.skip(0) =~= providers@);
    }
    while i < providers.len()
        invariant
            i <= providers@.len(),
            search_result(providers@, keyword@) =~= out@ + search_result(
                providers@.skip(i as int),
                keyword@,
            ),
        decreases providers@.len() - i,
    {
        proof {
            assert(providers@.skip(i as int).len() > 0);
            assert(providers@.skip(i as int)[0] == providers@[i as int]);
            assert(providers@.skip(i as int).skip(1) =~= providers@.skip(i as int + 1));
        }
        let hay = to_lowercase(providers[i].name.as_str());
        let needle = to_lowercase(keyword);
        if contains_substring(hay.as_str(), needle.as_str()) {
            out.push(copy_provider(&providers[i]));
        }
        i += 1;
    }
    proof {
        assert(search_result(providers@.skip(providers@.len() as int), keyword@) =~= Seq::<
            ProviderInfo,
        >::empty());
        assert(out@ =~= search_result(providers@, keyword@));
    }
    out
}

/// Find the provider a query names: by GUID when the query parses as
/// one, else by name ignoring ASCII case; the first match wins.
pub fn find_provider(providers: Vec<ProviderInfo>, name_or_guid: &str) -> (r: Option<ProviderInfo>)
    ensures
        r == find_spec(providers@, name_or_guid@),
{
    let parsed = parse_guid(name_or_guid);
    let mut i: usize = 0;
    proof {
        assert(providers@.skip(0) =~= providers@);
    }
    while i < providers.len()
        invariant
            i <= providers@.len(),
            parsed == guid_parse(name_or_guid@),
            find_spec(providers@, name_or_guid@) == find_spec(
                providers@.skip(i as int),
                name_or_guid@,
            ),
        decreases providers@.len() - i,
    {
        proof {
            assert(providers@.skip(i as int).len() > 0);
            assert(providers@.skip(i as int)[0] == providers@[i as int]);
            assert(providers@.skip(i as int).skip(1) =~= providers@.skip(i as int + 1));
        }
        let hit = match parsed {
            Some(g) => providers[i].guid == g,
            None => eq_ignore_ascii_case(providers[i].name.as_str(), name_or_guid),
        };
        if hit {
            proof {
                assert(find_spec(providers@.skip(i as int), name_or_guid@) == Some(
                    providers@[i as int],
                ));
            }
            return Some(copy_provider(&providers[i]));
        }
        proof {
            assert(find_spec(providers@.skip(i as int), name_or_guid@) == find_spec(
                providers@.skip(i as int + 1),
                name_or_guid@,
            ));
        }
        i += 1;
    }
    proof {
        assert(find_spec(providers@.skip(i as int), name_or_guid@) is None);
    }
    None
}

/// Details for the provider a query names: its identity, with the named
/// keyword bits left for the platform's own lookup to fill.
pub fn find_provider_details(
    providers: Vec<ProviderInfo>,
    name_or_guid: &str,
) -> (r: Option<ProviderDetails>)
    ensures
        match r {
            Some(d) => find_spec(providers@, name_or_guid@) == Some(d.info) && d.keywords@
                =~= Seq::<(String, u64)>::empty(),
            None => find_spec(providers@, name_or_guid@) is None,
        },
{
    match find_provider(providers, name_or_guid) {
        Some(info) => Some(ProviderDetails { info, keywords: Vec::new() }),
        None => None,
    }
}

} // verus!
