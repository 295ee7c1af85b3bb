//! Kernel-command-line parsing.
//!
//! A command line is a single line of text, split purely on ASCII whitespace
//! into tokens; each token is either a bare flag or a `key=value` pair.
//! Parsing is total: any input produces a (possibly empty) result, never an
//! error.  Scalar lookups return the first match; the repeatable
//! `mount=`/`mount-ro=` keys are extracted in source order.

use crate::bytes::{bytes_eq, starts_with, views_of};
use vstd::prelude::*;

verus! {

/// `"mount="` as bytes.
pub const MOUNT_PREFIX: [u8; 6] = [109u8, 111u8, 117u8, 110u8, 116u8, 61u8];

/// `"mount-ro="` as bytes.
pub const MOUNT_RO_PREFIX: [u8; 9] = [109u8, 111u8, 117u8, 110u8, 116u8, 45u8, 114u8, 111u8,
    61u8];

/// ASCII whitespace, as the tokenizer sees it.
pub open spec fn is_space(b: u8) -> bool {
    b == 32 || b == 9 || b == 10 || b == 11 || b == 12 || b == 13
}

/// The longest space-free prefix of `s`.
pub open spec fn token_prefix(s: Seq<u8>) -> Seq<u8>
    decreases s.len(),
{
    if s.len() == 0 || is_space(s[0]) {
        Seq::empty()
    } else {
        seq![s[0]] + token_prefix(s.drop_first())
    }
}

/// A token is never empty and never longer than its source.
proof fn lemma_token_prefix_len(s: Seq<u8>)
    ensures
        token_prefix(s).len() <= s.len(),
        s.len() > 0 && !is_space(s[0]) ==> token_prefix(s).len() >= 1,
    decreases s.len(),
{
    if s.len() > 0 && !is_space(s[0]) {
        lemma_token_prefix_len(s.drop_first());
    }
}

/// The whitespace-separated tokens of `s`, in source order.
pub open spec fn spec_tokens(s: Seq<u8>) -> Seq<Seq<u8>>
    decreases s.len(),
    via spec_tokens_decreases
{
    if s.len() == 0 {
        Seq::empty()
    } else if is_space(s[0]) {
        spec_tokens(s.drop_first())
    } else {
        seq![token_prefix(s)] + spec_tokens(s.skip(token_prefix(s).len() as int))
    }
}

#[via_fn]
proof fn spec_tokens_decreases(s: Seq<u8>) {
    if s.len() != 0 && !is_space(s[0]) {
        lemma_token_prefix_len(s);
    }
}

/// If the first `k` bytes of `s` are not spaces and byte `k` (if any) is,
/// the token prefix is exactly those `k` bytes.
proof fn lemma_token_prefix_value(s: Seq<u8>, k: int)
    requires
        0 <= k <= s.len(),
        forall|j: int| 0 <= j < k ==> !is_space(s[j]),
        k == s.len() || is_space(s[k]),
    ensures
        token_prefix(s) == s.take(k),
    decreases k,
{
    if k == 0 {
        assert(s.take(0) =~= Seq::<u8>::empty());
    } else {
        assert(!is_space(s[0]));
        assert(forall|j: int| 0 <= j < k - 1 ==> s.drop_first()[j] == s[j + 1]);
        lemma_token_prefix_value(s.drop_first(), k - 1);
        assert(seq![s[0]] + s.drop_first().take(k - 1) =~= s.take(k));
    }
}

/// Splitting off one whole token: if `s` opens with `k > 0` non-space bytes
/// followed by a space or the end, the token list of `s` is that token
/// followed by the token list of the rest.
proof fn lemma_tokens_step(s: Seq<u8>, k: int)
    requires
        0 < k <= s.len(),
        forall|j: int| 0 <= j < k ==> !is_space(s[j]),
        k == s.len() || is_space(s[k]),
    ensures
        spec_tokens(s) == seq![s.take(k)] + spec_tokens(s.skip(k)),
{
    lemma_token_prefix_value(s, k);
    assert(token_prefix(s).len() == k);
}

/// Push one element under `views_of`.
proof fn lemma_views_of_push(ts: Seq<Vec<u8>>, v: Vec<u8>)
    ensures
        views_of(ts.push(v)) =~= views_of(ts) + seq![v@],
{
}

/// Split a byte string into its whitespace-separated tokens.
pub fn tokenize(s: &[u8]) -> (r: Vec<Vec<u8>>)
    ensures
        views_of(r@) == spec_tokens(s@),
{
    let mut toks: Vec<Vec<u8>> = Vec::new();
    let mut i: usize = 0;
    proof {
        assert(s@.skip(0) =~= s@);
        assert(views_of(toks@) =~= Seq::<Seq<u8>>::empty());
    }
    while i < s.len()
        invariant
            0 <= i <= s@.len(),
            views_of(toks@) + spec_tokens(s@.skip(i as int)) == spec_tokens(s@),
        decreases s@.len() - i,
    {
        proof {
            assert(s@.skip(i as int)[0] == s@[i as int]);
        }
        let b = s[i];
        if b == 32 || b == 9 || b == 10 || b == 11 || b == 12 || b == 13 {
            proof {
                assert(s@.skip(i as int).drop_first() =~= s@.skip(i as int + 1));
            }
            i += 1;
        } else {
            let start = i;
            let mut j = i;
            while j < s.len() && !(s[j] == 32 || s[j] == 9 || s[j] == 10 || s[j] == 11 || s[j]
                == 12 || s[j] == 13)
                invariant
                    start <= j <= s@.len(),
                    forall|t: int| start <= t < j ==> !is_space(s@[t]),
                decreases s@.len() - j,
            {
                j += 1;
            }
            let cur: Vec<u8> = vstd::slice::slice_to_vec(
                vstd::slice::slice_subrange(s, start, j),
            );
            proof {
                let t = s@.skip(start as int);
                let k = j as int - start as int;
                assert(forall|q: int| 0 <= q < t.len() ==> t[q] == s@[start + q]);
                assert(k == t.len() || is_space(t[k]));
                lemma_tokens_step(t, k);
                assert(t.take(k) =~= s@.subrange(start as int, j as int));
                assert(t.skip(k) =~= s@.skip(j as int));
                lemma_views_of_push(toks@, cur);
                assert(views_of(toks@.push(cur)) + spec_tokens(s@.skip(j as int)) =~= views_of(
                    toks@,
                ) + spec_tokens(s@.skip(start as int)));
            }
            toks.push(cur);
            i = j;
        }
    }
    proof {
        assert(s@.skip(i as int).len() == 0);
        assert(views_of(toks@) + spec_tokens(s@.skip(i as int)) =~= views_of(toks@));
    }
    toks
}

/// Is `t` a `key=value` token for `key`?  The value may be empty.
pub open spec fn is_kv_token(t: Seq<u8>, key: Seq<u8>) -> bool {
    t.len() > key.len() && t.take(key.len() as int) == key && t[key.len() as int] == 61
}

/// The value part of a `key=value` token.
pub open spec fn kv_value(t: Seq<u8>, key: Seq<u8>) -> Seq<u8> {
    t.skip(key.len() as int + 1)
}

/// First-match lookup over a token list: a token equal to `key` yields the
/// empty value, a `key=value` token yields the value, and the first match
/// wins.
pub open spec fn spec_lookup(toks: Seq<Seq<u8>>, key: Seq<u8>) -> Option<Seq<u8>>
    decreases toks.len(),
{
    if toks.len() == 0 {
        None
    } else if toks[0] == key {
        Some(Seq::empty())
    } else if is_kv_token(toks[0], key) {
        Some(kv_value(toks[0], key))
    } else {
        spec_lookup(toks.drop_first(), key)
    }
}

/// What `cmdline_get` returns for a whole command line.
pub open spec fn spec_cmdline_get(cmdline: Seq<u8>, key: Seq<u8>) -> Option<Seq<u8>> {
    spec_lookup(spec_tokens(cmdline), key)
}

/// Look `key` up on the command line.  Total: never fails, absent keys
/// yield `None`; a bare flag yields `Some` of the empty value; first
/// occurrence wins.
pub fn cmdline_get(cmdline: &[u8], key: &[u8]) -> (r: Option<Vec<u8>>)
    ensures
        (match r {
            Some(v) => spec_cmdline_get(cmdline@, key@) == Some(v@),
            None => spec_cmdline_get(cmdline@, key@) is None,
        }),
{
    let toks = tokenize(cmdline);
    let ghost full = views_of(toks@);
    let mut i: usize = 0;
    proof {
        assert(full.skip(0) =~= full);
    }
    while i < toks.len()
        invariant
            0 <= i <= toks@.len(),
            full == views_of(toks@),
            full == spec_tokens(cmdline@),
            spec_lookup(full, key@) == spec_lookup(full.skip(i as int), key@),
        decreases toks@.len() - i,
    {
        proof {
            assert(full.skip(i as int)[0] == toks@[i as int]@);
        }
        let t: &Vec<u8> = &toks[i];
        if bytes_eq(t.as_slice(), key) {
            return Some(Vec::new());
        }
        if t.len() > key.len() && starts_with(t.as_slice(), key) {
            if t[key.len()] == 61 {
                proof {
                    assert(key@ =~= t@.subrange(0, key@.len() as int));
                    assert(is_kv_token(t@, key@));
                }
                let v: Vec<u8> = vstd::slice::slice_to_vec(
                    vstd::slice::slice_subrange(t.as_slice(), key.len() + 1, t.len()),
                );
                proof {
                    assert(v@ =~= kv_value(t@, key@));
                }
                return Some(v);
            }
        }
        proof {
            assert(!is_kv_token(t@, key@));
            assert(full.skip(i as int).drop_first() =~= full.skip(i as int + 1));
        }
        i += 1;
    }
    proof {
        assert(full.skip(i as int).len() == 0);
    }
    None
}

/// The share named by one token: the tag of a `mount=` token (writable) or
/// of a `mount-ro=` token (read-only); empty tags are skipped.
pub open spec fn mount_entry(t: Seq<u8>) -> Option<(Seq<u8>, bool)> {
    if t.len() > MOUNT_PREFIX@.len() && t.take(MOUNT_PREFIX@.len() as int) == MOUNT_PREFIX@ {
        Some((t.skip(MOUNT_PREFIX@.len() as int), false))
    } else if t.len() > MOUNT_RO_PREFIX@.len() && t.take(MOUNT_RO_PREFIX@.len() as int)
        == MOUNT_RO_PREFIX@ {
        Some((t.skip(MOUNT_RO_PREFIX@.len() as int), true))
    } else {
        None
    }
}

/// All share requests of a token list, in source order.
pub open spec fn spec_mount_list(toks: Seq<Seq<u8>>) -> Seq<(Seq<u8>, bool)>
    decreases toks.len(),
{
    if toks.len() == 0 {
        Seq::empty()
    } else {
        match mount_entry(toks[0]) {
            Some(e) => seq![e] + spec_mount_list(toks.drop_first()),
            None => spec_mount_list(toks.drop_first()),
        }
    }
}

/// What `cmdline_get_mounts` returns for a whole command line.
pub open spec fn spec_cmdline_mounts(cmdline: Seq<u8>) -> Seq<(Seq<u8>, bool)> {
    spec_mount_list(spec_tokens(cmdline))
}

/// The views of a list of tag/read-only pairs.
pub open spec fn entry_views(rs: Seq<(Vec<u8>, bool)>) -> Seq<(Seq<u8>, bool)> {
    rs.map_values(|p: (Vec<u8>, bool)| (p.0@, p.1))
}

/// Push one element under `entry_views`.
proof fn lemma_entry_views_push(rs: Seq<(Vec<u8>, bool)>, p: (Vec<u8>, bool))
    ensures
        entry_views(rs.push(p)) =~= entry_views(rs) + seq![(p.0@, p.1)],
{
}

/// Extract every `mount=TAG` and `mount-ro=TAG` parameter, in left-to-right
/// source order, tagged read-only exactly when the key was `mount-ro=`;
/// empty tags are skipped.
pub fn cmdline_get_mounts(cmdline: &[u8]) -> (r: Vec<(Vec<u8>, bool)>)
    ensures
        entry_views(r@) == spec_cmdline_mounts(cmdline@),
{
    let toks = tokenize(cmdline);
    let ghost full = views_of(toks@);
    let mut out: Vec<(Vec<u8>, bool)> = Vec::new();
    let mut i: usize = 0;
    proof {
        assert(full.skip(0) =~= full);
        assert(entry_views(out@) =~= Seq::<(Seq<u8>, bool)>::empty());
    }
    while i < toks.len()
        invariant
            0 <= i <= toks@.len(),
            full == views_of(toks@),
            full == spec_tokens(cmdline@),
            entry_views(out@) + spec_mount_list(full.skip(i as int)) == spec_mount_list(full),
        decreases toks@.len() - i,
    {
        proof {
            assert(full.skip(i as int)[0] == toks@[i as int]@);
        }
        let t: &Vec<u8> = &toks[i];
        let mp: &[u8] = MOUNT_PREFIX.as_slice();
        let mrp: &[u8] = MOUNT_RO_PREFIX.as_slice();
        if t.len() > mp.len() && starts_with(t.as_slice(), mp) {
            let tag: Vec<u8> = vstd::slice::slice_to_vec(
                vstd::slice::slice_subrange(t.as_slice(), mp.len(), t.len()),
            );
            proof {
                assert(MOUNT_PREFIX@ =~= t@.subrange(0, MOUNT_PREFIX@.len() as int));
                assert(tag@ =~= t@.skip(MOUNT_PREFIX@.len() as int));
                lemma_entry_views_push(out@, (tag, false));
            }
            out.push((tag, false));
        } else if t.len() > mrp.len() && starts_with(t.as_slice(), mrp) {
            let tag: Vec<u8> = vstd::slice::slice_to_vec(
                vstd::slice::slice_subrange(t.as_slice(), mrp.len(), t.len()),
            );
            proof {
                assert(MOUNT_RO_PREFIX@ =~= t@.subrange(0, MOUNT_RO_PREFIX@.len() as int));
                assert(tag@ =~= t@.skip(MOUNT_RO_PREFIX@.len() as int));
                lemma_entry_views_push(out@, (tag, true));
            }
            out.push((tag, true));
        } else {
            proof {
                assert(mount_entry(t@) is None);
            }
        }
        proof {
            assert(full.skip(i as int).drop_first() =~= full.skip(i as int + 1));
        }
        i += 1;
    }
    proof {
        assert(full.skip(i as int).len() == 0);
        assert(entry_views(out@) + spec_mount_list(full.skip(i as int)) =~= entry_views(out@));
    }
    out
}

} // verus!
