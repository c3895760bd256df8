//! The identifier extractor: derives the canonical short identifier from a
//! record's full URI-style identifier. Pure, total and deterministic.

use vstd::prelude::*;

verus! {

/// The characters of `s` that follow its last `/`; the whole of `s` when it
/// holds no `/` at all; empty when `s` ends in `/`.
pub open spec fn tail_after_last_slash(s: Seq<char>) -> Seq<char>
    decreases s.len(),
{
    if s.len() == 0 {
        s
    } else if s.last() == '/' {
        Seq::<char>::empty()
    } else {
        tail_after_last_slash(s.drop_last()).push(s.last())
    }
}

/// The canonical short identifier of a full identifier: its trailing path
/// segment, or, when that segment is empty (no `/`-free tail), the full
/// identifier itself, so that a non-empty input never yields an empty key.
pub open spec fn canon_id_of(s: Seq<char>) -> Seq<char> {
    if tail_after_last_slash(s).len() == 0 {
        s
    } else {
        tail_after_last_slash(s)
    }
}

proof fn lemma_tail_no_slash_at_all(s: Seq<char>)
    requires
        forall|j: int| 0 <= j < s.len() ==> s[j] != '/',
    ensures
        tail_after_last_slash(s) == s,
    decreases s.len(),
{
    if s.len() > 0 {
        lemma_tail_no_slash_at_all(s.drop_last());
        assert(s.drop_last().push(s.last()) =~= s);
    }
}

proof fn lemma_tail_after_position(s: Seq<char>, p: int)
    requires
        0 <= p < s.len(),
        s[p] == '/',
        forall|j: int| p < j < s.len() ==> s[j] != '/',
    ensures
        tail_after_last_slash(s) =~= s.subrange(p + 1, s.len() as int),
    decreases s.len(),
{
    if p == s.len() - 1 {
    } else {
        lemma_tail_after_position(s.drop_last(), p);
    }
}

proof fn lemma_tail_has_no_slash(s: Seq<char>)
    ensures
        forall|j: int| 0 <= j < tail_after_last_slash(s).len() ==> tail_after_last_slash(s)[j]
            != '/',
    decreases s.len(),
{
    if s.len() > 0 && s.last() != '/' {
        lemma_tail_has_no_slash(s.drop_last());
        let t = tail_after_last_slash(s.drop_last()).push(s.last());
        assert(forall|j: int| 0 <= j < t.len() - 1 ==> t[j] == tail_after_last_slash(
            s.drop_last(),
        )[j]);
    }
}

/// The extractor is idempotent: extracting from an already canonical
/// identifier hands it back unchanged.
pub proof fn lemma_canon_id_idempotent(s: Seq<char>)
    ensures
        canon_id_of(canon_id_of(s)) == canon_id_of(s),
{
    let t = tail_after_last_slash(s);
    if t.len() == 0 {
    } else {
        lemma_tail_has_no_slash(s);
        lemma_tail_no_slash_at_all(t);
    }
}

/// A non-empty full identifier yields a non-empty canonical identifier.
pub proof fn lemma_canon_id_nonempty(s: Seq<char>)
    requires
        s.len() > 0,
    ensures
        canon_id_of(s).len() > 0,
{
}

/// Returns the canonical short identifier of `full_id`: the segment after the
/// last `/`, or `full_id` itself when that segment would be empty.
pub fn extract_id_from(full_id: &str) -> (r: String)
    requires
        full_id@.len() > 0,
    ensures
        r@ == canon_id_of(full_id@),
        r@.len() > 0,
{
    let len: usize = full_id.unicode_len();
    let mut slash_at: Option<usize> = None;
    let mut i: usize = 0;
    while i < len
        invariant
            len == full_id@.len(),
            i <= len,
            match slash_at {
                Some(p) => p < i && full_id@[p as int] == '/' && (forall|j: int|
                    p < j < i ==> full_id@[j] != '/'),
                None => forall|j: int| 0 <= j < i ==> full_id@[j] != '/',
            },
        decreases len - i,
    {
        if full_id.get_char(i) == '/' {
            slash_at = Some(i);
        }
        i += 1;
    }
    match slash_at {
        None => {
            proof {
                lemma_tail_no_slash_at_all(full_id@);
            }
            full_id.to_owned()
        },
        Some(p) => {
            proof {
                lemma_tail_after_position(full_id@, p as int);
            }
            if p + 1 == len {
                full_id.to_owned()
            } else {
                let seg = full_id.substring_char(p + 1, len);
                seg.to_owned()
            }
        },
    }
}

} // verus!
