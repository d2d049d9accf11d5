//! The compute side of the transport gateway: normalizing request fields,
//! folding duplicate response headers, and assembling the payload of a
//! shared snippet.  The transport itself — reading requests, sending the
//! payload on — stays with the host.

use vstd::prelude::*;
use crate::text;

verus! {

/// A snippet of code a caller asks to share.
pub struct Gist<'a> {
    pub code: &'a str,
}

/// What the sharing service answers with: the identifier and address of the
/// stored snippet.
pub struct PostGist {
    pub id: String,
    pub html_url: String,
}

/// The payload a shared snippet is posted as: a public, described upload of
/// one named file holding the code.
pub struct GistRequest {
    pub description: String,
    pub public: bool,
    pub file_name: String,
    pub content: String,
}

/// Builds the upload payload for one snippet: always public, under the
/// canonical description and file name, with the code as content.
pub fn share_request(gist: &Gist<'_>) -> (r: GistRequest)
    ensures
        r.description@ == "Gluon code shared from try_gluon"@,
        r.public == true,
        r.file_name@ == "try_gluon.glu"@,
        r.content@ == gist.code@,
{
    GistRequest {
        description: String::from_str("Gluon code shared from try_gluon"),
        public: true,
        file_name: String::from_str("try_gluon.glu"),
        content: String::from_str(gist.code),
    }
}

/// Treats an empty text field as absent: deserialized request fields arrive
/// as empty strings where nothing was sent.
pub fn empty_to_none(s: Option<String>) -> (r: Option<String>)
    ensures
        match s {
            Some(t) => if t@.len() == 0 {
                r is None
            } else {
                r == Some(t)
            },
            None => r is None,
        },
{
    match s {
        Some(t) => {
            if t.as_str().unicode_len() == 0 {
                None
            } else {
                Some(t)
            }
        },
        None => None,
    }
}

/// The views of a sequence of text pairs.
pub open spec fn view_pairs(s: Seq<(String, String)>) -> Seq<(Seq<char>, Seq<char>)> {
    s.map_values(|p: (String, String)| (p.0@, p.1@))
}

/// The first position of `key` in `acc`, or `acc.len()` when absent.
pub open spec fn spec_key_index(acc: Seq<(Seq<char>, Seq<char>)>, key: Seq<char>) -> int
    decreases acc.len(),
{
    if acc.len() == 0 {
        0
    } else if acc[0].0 == key {
        0
    } else {
        1 + spec_key_index(acc.subrange(1, acc.len() as int), key)
    }
}

proof fn lemma_key_index(acc: Seq<(Seq<char>, Seq<char>)>, key: Seq<char>)
    ensures
        0 <= spec_key_index(acc, key) <= acc.len(),
        spec_key_index(acc, key) < acc.len() ==> acc[spec_key_index(acc, key)].0 == key,
        forall|m: int| 0 <= m < spec_key_index(acc, key) ==> acc[m].0 != key,
    decreases acc.len(),
{
    if acc.len() > 0 && acc[0].0 != key {
        let tail = acc.subrange(1, acc.len() as int);
        lemma_key_index(tail, key);
        assert forall|m: int| 0 <= m < spec_key_index(acc, key) implies acc[m].0 != key by {
            if m > 0 {
                assert(tail[m - 1] == acc[m]);
            }
        }
    }
}

/// Folding one pair into the merged list: a pair whose key is already
/// present appends its value to that entry, separated by a comma; a new key
/// appends a new entry.
pub open spec fn spec_merge_step(
    acc: Seq<(Seq<char>, Seq<char>)>,
    pair: (Seq<char>, Seq<char>),
) -> Seq<(Seq<char>, Seq<char>)> {
    let idx = spec_key_index(acc, pair.0);
    if idx < acc.len() {
        acc.update(idx, (acc[idx].0, acc[idx].1 + ","@ + pair.1))
    } else {
        acc.push(pair)
    }
}

pub open spec fn spec_merge_from(
    acc: Seq<(Seq<char>, Seq<char>)>,
    rest: Seq<(Seq<char>, Seq<char>)>,
) -> Seq<(Seq<char>, Seq<char>)>
    decreases rest.len(),
{
    if rest.len() == 0 {
        acc
    } else {
        spec_merge_from(spec_merge_step(acc, rest[0]), rest.subrange(1, rest.len() as int))
    }
}

/// The merged form of a pair list: keys in first-appearance order, each
/// holding every value it arrived with, joined by commas.
pub open spec fn spec_merge_headers(pairs: Seq<(Seq<char>, Seq<char>)>) -> Seq<
    (Seq<char>, Seq<char>),
> {
    spec_merge_from(Seq::empty(), pairs)
}

/// The first position of `key` among the merged entries, or their count
/// when absent.
fn find_key(acc: &Vec<(String, String)>, key: &str) -> (r: usize)
    ensures
        r == spec_key_index(view_pairs(acc@), key@),
        r <= acc@.len(),
{
    proof {
        lemma_key_index(view_pairs(acc@), key@);
    }
    let mut j: usize = 0;
    while j < acc.len()
        invariant
            j <= acc@.len(),
            forall|m: int| 0 <= m < j ==> view_pairs(acc@)[m].0 != key@,
            spec_key_index(view_pairs(acc@), key@) >= 0,
            spec_key_index(view_pairs(acc@), key@) <= acc@.len(),
            spec_key_index(view_pairs(acc@), key@) < acc@.len() ==> view_pairs(acc@)[
                spec_key_index(view_pairs(acc@), key@)
            ].0 == key@,
            forall|m: int|
                0 <= m < spec_key_index(view_pairs(acc@), key@) ==> view_pairs(acc@)[m].0 != key@,
        decreases acc@.len() - j,
    {
        if text::str_eq(acc[j].0.as_str(), key) {
            proof {
                let idx = spec_key_index(view_pairs(acc@), key@);
                assert(view_pairs(acc@)[j as int].0 == key@);
                if idx < j {
                    assert(false);
                }
                if idx > j {
                    assert(view_pairs(acc@)[j as int].0 != key@);
                }
            }
            return j;
        }
        j = j + 1;
    }
    proof {
        let idx = spec_key_index(view_pairs(acc@), key@);
        if idx < acc@.len() {
            assert(view_pairs(acc@)[idx].0 == key@);
        }
    }
    acc.len()
}

/// Folds a list of header pairs into one entry per key: the first
/// appearance fixes an entry's position, and every later value for the same
/// key is appended to it after a comma.
pub fn merge_header_values(pairs: &Vec<(String, String)>) -> (r: Vec<(String, String)>)
    ensures
        view_pairs(r@) == spec_merge_headers(view_pairs(pairs@)),
{
    let mut r: Vec<(String, String)> = Vec::new();
    let mut i: usize = 0;
    proof {
        assert(view_pairs(pairs@).subrange(0, pairs@.len() as int) =~= view_pairs(pairs@));
        assert(view_pairs(r@) =~= Seq::<(Seq<char>, Seq<char>)>::empty());
    }
    while i < pairs.len()
        invariant
            i <= pairs@.len(),
            spec_merge_from(
                view_pairs(r@),
                view_pairs(pairs@).subrange(i as int, pairs@.len() as int),
            ) == spec_merge_headers(view_pairs(pairs@)),
        decreases pairs@.len() - i,
    {
        let ghost acc0 = view_pairs(r@);
        let ghost rest = view_pairs(pairs@).subrange(i as int, pairs@.len() as int);
        proof {
            assert(rest[0] == view_pairs(pairs@)[i as int]);
            assert(rest.subrange(1, rest.len() as int) =~= view_pairs(pairs@).subrange(
                i + 1,
                pairs@.len() as int,
            ));
        }
        let j = find_key(&r, pairs[i].0.as_str());
        if j < r.len() {
            let joined = r[j].1.clone().concat(",").concat(pairs[i].1.as_str());
            let key_kept = r[j].0.clone();
            r.set(j, (key_kept, joined));
            proof {
                assert(view_pairs(r@) =~= spec_merge_step(acc0, rest[0]));
            }
        } else {
            r.push((pairs[i].0.clone(), pairs[i].1.clone()));
            proof {
                assert(view_pairs(r@) =~= spec_merge_step(acc0, rest[0]));
            }
        }
        i = i + 1;
    }
    proof {
        assert(view_pairs(pairs@).subrange(pairs@.len() as int, pairs@.len() as int)
            =~= Seq::<(Seq<char>, Seq<char>)>::empty());
    }
    r
}

} // verus!
