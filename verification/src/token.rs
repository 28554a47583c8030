//! Incremental per-session token estimates of the transcript, keyed by a
//! SHA-256 fingerprint of its exact content: an unchanged transcript reuses
//! its estimate, an appended one counts only the new messages, anything
//! else is counted afresh. Bounded with least-recently-used eviction.

use vstd::prelude::*;
use crate::ids::{dec_seq, decimal};
use crate::keyed::{SessionMap, moved_last};
use crate::types::{CanonicalMessage, CanonicalRole, ContentPart};

verus! {

/// SHA-256 digest of `data`, as `sha2` computes it.
pub uninterp spec fn sha256_digest(data: Seq<u8>) -> Seq<u8>;

/// `sha2::Sha256::digest`: the SHA-256 digest of `data`, which is 32 bytes
/// long and a function of the bytes alone (what the digest is, is not
/// stated).
#[verifier::external_body]
fn sha256(data: &[u8]) -> (r: Vec<u8>)
    ensures
        r@ == sha256_digest(data@),
        r@.len() == 32,
{
    <sha2::Sha256 as sha2::Digest>::digest(data).to_vec()
}

/// UTF-8 bytes of `s`.
pub open spec fn utf8(s: Seq<char>) -> Seq<u8> {
    vstd::utf8::encode_utf8(s)
}

/// `b` preceded by its decimal length and a colon.
pub open spec fn netstring(b: Seq<u8>) -> Seq<u8> {
    utf8(dec_seq(b.len())) + seq![58u8] + b
}

/// Framing of an optional text.
pub open spec fn frame_opt(o: Option<String>) -> Seq<u8> {
    match o {
        None => seq![0u8],
        Some(s) => seq![1u8] + netstring(utf8(s@)),
    }
}

/// Framing of one content part: a kind byte, then its fields.
pub open spec fn frame_part(p: ContentPart) -> Seq<u8> {
    match p {
        ContentPart::Text(t) => seq![84u8] + netstring(utf8(t@)),
        ContentPart::Image { media_type, data } => seq![73u8] + netstring(utf8(media_type@)) + netstring(
            utf8(data@),
        ),
        ContentPart::Audio { media_type, data } => seq![65u8] + netstring(utf8(media_type@)) + netstring(
            utf8(data@),
        ),
    }
}

/// Framing of a sequence of parts.
pub open spec fn frame_parts(ps: Seq<ContentPart>) -> Seq<u8>
    decreases ps.len(),
{
    if ps.len() == 0 {
        Seq::empty()
    } else {
        frame_parts(ps.drop_last()) + frame_part(ps.last())
    }
}

/// Byte naming a role.
pub open spec fn role_byte(r: CanonicalRole) -> u8 {
    match r {
        CanonicalRole::System => 83u8,
        CanonicalRole::User => 85u8,
        CanonicalRole::Assistant => 65u8,
        CanonicalRole::Tool => 84u8,
    }
}

/// Framing of one message, closed by a zero byte.
pub open spec fn frame_message(m: CanonicalMessage) -> Seq<u8> {
    seq![role_byte(m.role)] + frame_opt(m.tool_call_id) + utf8(dec_seq(m.content@.len())) + seq![58u8]
        + frame_parts(m.content@) + seq![0u8]
}

/// Framing of a transcript.
pub open spec fn frame_messages(ms: Seq<CanonicalMessage>) -> Seq<u8>
    decreases ms.len(),
{
    if ms.len() == 0 {
        Seq::empty()
    } else {
        frame_messages(ms.drop_last()) + frame_message(ms.last())
    }
}

/// Fingerprint of a transcript's exact content.
pub open spec fn fingerprint(ms: Seq<CanonicalMessage>) -> Seq<u8> {
    sha256_digest(frame_messages(ms))
}

fn push_bytes(out: &mut Vec<u8>, b: &[u8])
    ensures
        final(out)@ == old(out)@ + b@,
{
    let mut i: usize = 0;
    while i < b.len()
        invariant
            i <= b@.len(),
            out@ == old(out)@ + b@.take(i as int),
        decreases b.len() - i,
    {
        out.push(b[i]);
        assert(b@.take(i + 1) == b@.take(i as int).push(b@[i as int]));
        i += 1;
    }
    assert(b@.take(b@.len() as int) == b@);
}

fn push_decimal(out: &mut Vec<u8>, n: usize)
    ensures
        final(out)@ == old(out)@ + utf8(dec_seq(n as nat)) + seq![58u8],
{
    let d = decimal(n as u64);
    push_bytes(out, d.as_str().as_bytes());
    out.push(58u8);
}

fn push_netstring(out: &mut Vec<u8>, b: &[u8])
    ensures
        final(out)@ == old(out)@ + netstring(b@),
{
    push_decimal(out, b.len());
    push_bytes(out, b);
    assert(final(out)@ =~= old(out)@ + netstring(b@));
}

fn push_str(out: &mut Vec<u8>, s: &str)
    ensures
        final(out)@ == old(out)@ + netstring(utf8(s@)),
{
    push_netstring(out, s.as_bytes());
}

fn push_part(out: &mut Vec<u8>, p: &ContentPart)
    ensures
        final(out)@ == old(out)@ + frame_part(*p),
{
    match p {
        ContentPart::Text(t) => {
            out.push(84u8);
            push_str(out, t.as_str());
        },
        ContentPart::Image { media_type, data } => {
            out.push(73u8);
            push_str(out, media_type.as_str());
            push_str(out, data.as_str());
        },
        ContentPart::Audio { media_type, data } => {
            out.push(65u8);
            push_str(out, media_type.as_str());
            push_str(out, data.as_str());
        },
    }
    assert(final(out)@ =~= old(out)@ + frame_part(*p));
}

fn push_message(out: &mut Vec<u8>, m: &CanonicalMessage)
    ensures
        final(out)@ == old(out)@ + frame_message(*m),
{
    let role: u8 = match m.role {
        CanonicalRole::System => 83u8,
        CanonicalRole::User => 85u8,
        CanonicalRole::Assistant => 65u8,
        CanonicalRole::Tool => 84u8,
    };
    out.push(role);
    match &m.tool_call_id {
        None => out.push(0u8),
        Some(id) => {
            out.push(1u8);
            push_str(out, id.as_str());
        },
    }
    push_decimal(out, m.content.len());
    let ghost head = out@;
    let mut j: usize = 0;
    while j < m.content.len()
        invariant
            j <= m.content@.len(),
            out@ == head + frame_parts(m.content@.take(j as int)),
        decreases m.content.len() - j,
    {
        push_part(out, &m.content[j]);
        proof {
            let t = m.content@.take(j + 1);
            assert(t.drop_last() == m.content@.take(j as int));
            assert(t.last() == m.content@[j as int]);
        }
        j += 1;
    }
    proof {
        assert(m.content@.take(m.content@.len() as int) == m.content@);
    }
    out.push(0u8);
    assert(final(out)@ =~= old(out)@ + frame_message(*m));
}

/// Fingerprint of the first `k` messages of a transcript.
pub fn canonical_fingerprint(messages: &[CanonicalMessage], k: usize) -> (r: Vec<u8>)
    requires
        k <= messages@.len(),
    ensures
        r@ == fingerprint(messages@.take(k as int)),
{
    let mut out: Vec<u8> = Vec::new();
    let mut i: usize = 0;
    while i < k
        invariant
            i <= k <= messages@.len(),
            out@ == frame_messages(messages@.take(i as int)),
        decreases k - i,
    {
        push_message(&mut out, &messages[i]);
        proof {
            let t = messages@.take(i + 1);
            assert(t.drop_last() == messages@.take(i as int));
            assert(t.last() == messages@[i as int]);
        }
        i += 1;
    }
    sha256(out.as_slice())
}

/// Two byte strings are equal.
pub fn bytes_eq(a: &[u8], b: &[u8]) -> (r: bool)
    ensures
        r == (a@ == b@),
{
    if a.len() != b.len() {
        return false;
    }
    let mut i: usize = 0;
    while i < a.len()
        invariant
            a@.len() == b@.len(),
            i <= a@.len(),
            forall|k: int| 0 <= k < i ==> a@[k] == b@[k],
        decreases a.len() - i,
    {
        if a[i] != b[i] {
            return false;
        }
        i += 1;
    }
    assert(a@ =~= b@);
    true
}

/// Cached estimate of a session: the transcript length and tokens it covers
/// and the fingerprint of exactly that transcript.
pub struct TokenEstimate {
    pub msgs_len: usize,
    pub tokens: u32,
    pub fingerprint: Vec<u8>,
}

/// Bound on sessions with a cached estimate.
pub const TOKEN_ESTIMATE_CACHE_CAPACITY: usize = 256;

/// Per-session token-estimate cache.
pub struct TokenEstimateCache {
    entries: SessionMap<TokenEstimate>,
}

/// The cached estimate matches the transcript exactly.
pub open spec fn is_hit(prior: Option<TokenEstimate>, canonical: Seq<CanonicalMessage>) -> bool {
    prior matches Some(e) && e.fingerprint@ == fingerprint(canonical)
}

/// The transcript extends the cached one: only the appended messages need
/// counting.
pub open spec fn is_prefix_reuse(prior: Option<TokenEstimate>, canonical: Seq<CanonicalMessage>) -> bool {
    prior matches Some(e) && !is_hit(prior, canonical) && e.msgs_len < canonical.len() && e.fingerprint@
        == fingerprint(canonical.take(e.msgs_len as int))
}

impl TokenEstimateCache {
    /// Cached estimates by session.
    pub closed spec fn entries_v(&self) -> Map<Seq<char>, TokenEstimate> {
        self.entries@
    }

    /// Sessions in recency order, least recently estimated first.
    pub closed spec fn order_v(&self) -> Seq<Seq<char>> {
        self.entries.order()
    }

    /// Number of cached sessions.
    pub closed spec fn size_v(&self) -> nat {
        self.entries.len_spec()
    }

    pub closed spec fn wf(&self) -> bool {
        self.entries.wf() && self.entries.capacity_spec() == TOKEN_ESTIMATE_CACHE_CAPACITY
    }

    /// The cached estimate of `session`.
    pub open spec fn prior(&self, session: Seq<char>) -> Option<TokenEstimate> {
        if self.entries_v().contains_key(session) {
            Some(self.entries_v()[session])
        } else {
            None
        }
    }

    /// An empty cache.
    pub fn new() -> (r: TokenEstimateCache)
        ensures
            r.wf(),
            r.entries_v() == Map::<Seq<char>, TokenEstimate>::empty(),
    {
        TokenEstimateCache { entries: SessionMap::with_capacity(TOKEN_ESTIMATE_CACHE_CAPACITY) }
    }

    /// Number of cached sessions.
    pub fn len(&self) -> (r: usize)
        requires
            self.wf(),
        ensures
            r == self.size_v(),
            r <= TOKEN_ESTIMATE_CACHE_CAPACITY,
    {
        proof {
            self.entries.lemma_len_bounded();
        }
        self.entries.len()
    }

    /// `session` has a cached estimate.
    pub fn contains(&self, session_id: &str) -> (r: bool)
        requires
            self.wf(),
        ensures
            r == self.entries_v().contains_key(session_id@),
    {
        self.entries.contains_key(session_id)
    }

    /// Drop the estimate of `session`.
    pub fn remove(&mut self, session_id: &str)
        requires
            old(self).wf(),
        ensures
            final(self).wf(),
            final(self).entries_v() == old(self).entries_v().remove(session_id@),
    {
        let _ = self.entries.remove(session_id);
    }

    /// Token estimate of `canonical` for `session`. `count(canonical, k)`
    /// counts the tokens of the messages from `k` on. An unchanged
    /// transcript reuses the cached count; an extended one adds the count of
    /// the new messages (saturating); any other is counted whole. Misses
    /// store the new estimate as the most recent entry.
    pub fn estimate<F: Fn(&[CanonicalMessage], usize) -> u32>(
        &mut self,
        session_id: &str,
        canonical: &[CanonicalMessage],
        count: F,
    ) -> (r: u32)
        requires
            old(self).wf(),
            forall|k: usize| k <= canonical@.len() ==> #[trigger] count.requires((canonical, k)),
        ensures
            final(self).wf(),
            is_hit(old(self).prior(session_id@), canonical@) ==> r == old(self).prior(session_id@)->0.tokens
                && final(self).entries_v() == old(self).entries_v() && moved_last(
                old(self).order_v(),
                final(self).order_v(),
                session_id@,
            ),
            is_prefix_reuse(old(self).prior(session_id@), canonical@) ==> exists|t: u32|
                count.ensures((canonical, old(self).prior(session_id@)->0.msgs_len), t) && r == (
                old(self).prior(session_id@)->0.tokens).saturating_add(t),
            !is_hit(old(self).prior(session_id@), canonical@) && !is_prefix_reuse(
                old(self).prior(session_id@),
                canonical@,
            ) ==> count.ensures((canonical, 0usize), r),
            !is_hit(old(self).prior(session_id@), canonical@) ==> {
                &&& final(self).entries_v().contains_key(session_id@)
                &&& final(self).entries_v()[session_id@].tokens == r
                &&& final(self).entries_v()[session_id@].msgs_len == canonical@.len()
                &&& final(self).entries_v()[session_id@].fingerprint@ == fingerprint(canonical@)
                &&& forall|k: Seq<char>| k != session_id@ && #[trigger] final(self).entries_v().contains_key(k)
                    ==> old(self).entries_v().contains_key(k) && final(self).entries_v()[k] == old(
                    self,
                ).entries_v()[k]
                &&& (old(self).entries_v().contains_key(session_id@) || old(self).size_v()
                    < TOKEN_ESTIMATE_CACHE_CAPACITY) ==> forall|k: Seq<char>|
                    #[trigger] old(self).entries_v().contains_key(k) ==> final(self).entries_v().contains_key(k)
                &&& old(self).entries_v().contains_key(session_id@) ==> moved_last(
                    old(self).order_v(),
                    final(self).order_v(),
                    session_id@,
                )
                &&& !old(self).entries_v().contains_key(session_id@) && old(self).size_v()
                    < TOKEN_ESTIMATE_CACHE_CAPACITY ==> final(self).order_v() == old(self).order_v().push(session_id@)
                &&& !old(self).entries_v().contains_key(session_id@) && old(self).size_v()
                    >= TOKEN_ESTIMATE_CACHE_CAPACITY ==> {
                    &&& final(self).order_v() == old(self).order_v().skip(1).push(session_id@)
                    &&& !final(self).entries_v().contains_key(old(self).order_v()[0])
                    &&& forall|k: Seq<char>|
                        #[trigger] old(self).entries_v().contains_key(k) && k != old(self).order_v()[0]
                            ==> final(self).entries_v().contains_key(k)
                }
            },
            final(self).size_v() <= TOKEN_ESTIMATE_CACHE_CAPACITY,
    {
        let fp = canonical_fingerprint(canonical, canonical.len());
        proof {
            assert(canonical@.take(canonical@.len() as int) == canonical@);
            self.entries.order_lists_each_key_once();
            if self.entries.len_spec() > 0 {
                assert(self.entries.order()[0] == self.entries.order()[0]);
                assert(self.entries.order().contains(self.entries.order()[0]));
                assert(self.entries@.contains_key(self.entries.order()[0]));
            }
        }
        let mut reuse: Option<(usize, u32)> = None;
        match self.entries.get(session_id) {
            Some(e) => {
                if bytes_eq(e.fingerprint.as_slice(), fp.as_slice()) {
                    let tokens = e.tokens;
                    self.entries.touch(session_id);
                    proof {
                        self.entries.lemma_len_bounded();
                    }
                    return tokens;
                }
                if e.msgs_len < canonical.len() {
                    let prefix = canonical_fingerprint(canonical, e.msgs_len);
                    if bytes_eq(e.fingerprint.as_slice(), prefix.as_slice()) {
                        reuse = Some((e.msgs_len, e.tokens));
                    }
                }
            },
            None => {},
        }
        let ghost mut added_tokens: u32 = 0;
        let tokens = match reuse {
            Some((start, base)) => {
                let added = count(canonical, start);
                proof {
                    added_tokens = added;
                }
                base.saturating_add(added)
            },
            None => count(canonical, 0),
        };
        let ghost before = self.entries@;
        self.entries.insert_lru(
            session_id.to_owned(),
            TokenEstimate { msgs_len: canonical.len(), tokens, fingerprint: fp },
        );
        proof {
            self.entries.lemma_len_bounded();
            if is_prefix_reuse(old(self).prior(session_id@), canonical@) {
                assert(reuse == Some((old(self).prior(session_id@)->0.msgs_len, old(self).prior(session_id@)->0.tokens)));
                assert(count.ensures((canonical, old(self).prior(session_id@)->0.msgs_len), added_tokens));
                assert(tokens == (old(self).prior(session_id@)->0.tokens).saturating_add(added_tokens));
            }
        }
        tokens
    }
}

impl Default for TokenEstimateCache {
    fn default() -> (r: TokenEstimateCache)
        ensures
            r.wf(),
            r.entries_v() == Map::<Seq<char>, TokenEstimate>::empty(),
    {
        TokenEstimateCache::new()
    }
}

} // verus!
