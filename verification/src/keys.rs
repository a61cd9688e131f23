//! Session key format — `tenant:{id}:agent:{id}:channel:{name}:peer:{id}`.

use vstd::prelude::*;

use crate::ids::{is_uuid_text, AgentId, TenantId};
use crate::text::str_eq;

verus! {

/// Whether a text contains a colon.
pub open spec fn has_colon(s: Seq<char>) -> bool {
    exists|i: int| 0 <= i < s.len() && s[i] == ':'
}

/// Structured session key.
#[derive(Debug, PartialEq, Hash)]
pub struct SessionKey {
    pub tenant_id: TenantId,
    pub agent_id: AgentId,
    pub channel: String,
    pub peer_id: String,
}

/// The text form of a session key.
pub open spec fn key_text(k: SessionKey) -> Seq<char> {
    "tenant:"@ + k.tenant_id@ + ":agent:"@ + k.agent_id@ + ":channel:"@ + k.channel@ + ":peer:"@
        + k.peer_id@
}

/// A key whose text form parses back to it: canonical identifiers and a
/// channel free of colons (the peer part may contain colons, since it
/// comes last).
pub open spec fn key_wf(k: SessionKey) -> bool {
    is_uuid_text(k.tenant_id@) && is_uuid_text(k.agent_id@) && !has_colon(k.channel@)
}

impl Clone for SessionKey {
    fn clone(&self) -> (res: Self)
        ensures
            res == *self,
    {
        SessionKey {
            tenant_id: self.tenant_id.clone(),
            agent_id: self.agent_id.clone(),
            channel: self.channel.clone(),
            peer_id: self.peer_id.clone(),
        }
    }
}

impl SessionKey {
    pub fn new(tenant_id: TenantId, agent_id: AgentId, channel: String, peer_id: String) -> (r:
        Self)
        ensures
            r == (SessionKey { tenant_id, agent_id, channel, peer_id }),
    {
        SessionKey { tenant_id, agent_id, channel, peer_id }
    }

    /// Render the key as text.
    pub fn to_text(&self) -> (r: String)
        ensures
            r@ == key_text(*self),
    {
        let mut s = String::from_str("tenant:");
        let t = self.tenant_id.to_text();
        s.append(t.as_str());
        s.append(":agent:");
        let a = self.agent_id.to_text();
        s.append(a.as_str());
        s.append(":channel:");
        s.append(self.channel.as_str());
        s.append(":peer:");
        s.append(self.peer_id.as_str());
        s
    }

    /// Parse a session key text back into a `SessionKey`.
    ///
    /// Accepts exactly the texts that well-formed keys render to:
    /// `tenant:{id}:agent:{id}:channel:{name}:peer:{id}` with canonical
    /// identifiers and a colon-free channel name.
    pub fn parse(s: &str) -> (r: Option<Self>)
        ensures
            match r {
                Some(k) => key_wf(k) && s@ == key_text(k),
                None => forall|k: SessionKey| key_wf(k) ==> s@ != key_text(k),
            },
    {
        proof {
            reveal_strlit("tenant:");
            reveal_strlit(":agent:");
            reveal_strlit(":channel:");
            reveal_strlit(":peer:");
        }
        let n = s.unicode_len();
        if n < 101 {
            proof {
                assert forall|k: SessionKey| key_wf(k) implies s@ != key_text(k) by {
                    assert(key_text(k).len() >= 101);
                }
            }
            return None;
        }
        if !str_eq(s.substring_char(0, 7), "tenant:") {
            proof {
                assert forall|k: SessionKey| key_wf(k) implies s@ != key_text(k) by {
                    if s@ == key_text(k) {
                        assert(s@.subrange(0, 7) =~= "tenant:"@);
                    }
                }
            }
            return None;
        }
        let tenant_id = match TenantId::parse(s.substring_char(7, 43)) {
            Some(t) => t,
            None => {
                proof {
                    assert forall|k: SessionKey| key_wf(k) implies s@ != key_text(k) by {
                        if s@ == key_text(k) {
                            assert(s@.subrange(7, 43) =~= k.tenant_id@);
                        }
                    }
                }
                return None;
            },
        };
        if !str_eq(s.substring_char(43, 50), ":agent:") {
            proof {
                assert forall|k: SessionKey| key_wf(k) implies s@ != key_text(k) by {
                    if s@ == key_text(k) {
                        assert(s@.subrange(43, 50) =~= ":agent:"@);
                    }
                }
            }
            return None;
        }
        let agent_id = match AgentId::parse(s.substring_char(50, 86)) {
            Some(a) => a,
            None => {
                proof {
                    assert forall|k: SessionKey| key_wf(k) implies s@ != key_text(k) by {
                        if s@ == key_text(k) {
                            assert(s@.subrange(50, 86) =~= k.agent_id@);
                        }
                    }
                }
                return None;
            },
        };
        if !str_eq(s.substring_char(86, 95), ":channel:") {
            proof {
                assert forall|k: SessionKey| key_wf(k) implies s@ != key_text(k) by {
                    if s@ == key_text(k) {
                        assert(s@.subrange(86, 95) =~= ":channel:"@);
                    }
                }
            }
            return None;
        }
        // The channel runs to the first colon at or after position 95.
        let mut p: usize = 95;
        while p < n && s.get_char(p) != ':'
            invariant
                n == s@.len(),
                95 <= p <= n,
                forall|q: int| 95 <= q < p ==> s@[q] != ':',
            decreases n - p,
        {
            p = p + 1;
        }
        if p == n {
            proof {
                assert forall|k: SessionKey| key_wf(k) implies s@ != key_text(k) by {
                    if s@ == key_text(k) {
                        let ch = k.channel@.len() as int;
                        assert(s@[95 + ch] == ':');
                    }
                }
            }
            return None;
        }
        if n - p < 6 {
            proof {
                assert forall|k: SessionKey| key_wf(k) implies s@ != key_text(k) by {
                    if s@ == key_text(k) {
                        let ch = k.channel@.len() as int;
                        assert(forall|j: int| 0 <= j < ch ==> s@[95 + j] == k.channel@[j]);
                        assert(s@[95 + ch] == ':');
                        assert(p as int == 95 + ch) by {
                            if p < 95 + ch {
                                assert(s@[p as int] == k.channel@[p - 95]);
                            }
                        }
                        assert(s@.len() - p >= 6);
                    }
                }
            }
            return None;
        }
        if !str_eq(s.substring_char(p, p + 6), ":peer:") {
            proof {
                assert forall|k: SessionKey| key_wf(k) implies s@ != key_text(k) by {
                    if s@ == key_text(k) {
                        let ch = k.channel@.len() as int;
                        assert(forall|j: int| 0 <= j < ch ==> s@[95 + j] == k.channel@[j]);
                        assert(s@[95 + ch] == ':');
                        assert(p as int == 95 + ch) by {
                            if p < 95 + ch {
                                assert(s@[p as int] == k.channel@[p - 95]);
                            }
                        }
                        assert(s@.subrange(p as int, p + 6) =~= ":peer:"@);
                    }
                }
            }
            return None;
        }
        let channel = s.substring_char(95, p).to_owned();
        let peer_id = s.substring_char(p + 6, n).to_owned();
        let k = SessionKey { tenant_id, agent_id, channel, peer_id };
        proof {
            assert(!has_colon(k.channel@)) by {
                assert(forall|j: int| 0 <= j < k.channel@.len() ==> k.channel@[j] == s@[95 + j]);
            }
            assert(s@ =~= key_text(k));
        }
        Some(k)
    }
}

/// Round trip: the text form of a well-formed key determines the key.
/// Together with the contracts of `to_text` and `parse`, parsing a
/// rendered key gives back a key with exactly the same fields.
pub proof fn lemma_key_text_injective(k1: SessionKey, k2: SessionKey)
    requires
        key_wf(k1),
        key_wf(k2),
        key_text(k1) == key_text(k2),
    ensures
        k1.tenant_id@ == k2.tenant_id@,
        k1.agent_id@ == k2.agent_id@,
        k1.channel@ == k2.channel@,
        k1.peer_id@ == k2.peer_id@,
{
    reveal_strlit("tenant:");
    reveal_strlit(":agent:");
    reveal_strlit(":channel:");
    reveal_strlit(":peer:");
    let s = key_text(k1);
    let ch1 = k1.channel@.len() as int;
    let ch2 = k2.channel@.len() as int;
    assert(forall|j: int| 0 <= j < ch1 ==> s[95 + j] == k1.channel@[j]);
    assert(forall|j: int| 0 <= j < ch2 ==> s[95 + j] == k2.channel@[j]);
    assert(s[95 + ch1] == ':');
    assert(s[95 + ch2] == ':');
    assert(ch1 == ch2) by {
        if ch1 < ch2 {
            assert(s[95 + ch1] == k2.channel@[ch1]);
        }
        if ch2 < ch1 {
            assert(s[95 + ch2] == k1.channel@[ch2]);
        }
    }
    assert(k1.tenant_id@ =~= k2.tenant_id@) by {
        assert(forall|j: int| 0 <= j < 36 ==> s[7 + j] == k1.tenant_id@[j]);
        assert(forall|j: int| 0 <= j < 36 ==> s[7 + j] == k2.tenant_id@[j]);
    }
    assert(k1.agent_id@ =~= k2.agent_id@) by {
        assert(forall|j: int| 0 <= j < 36 ==> s[50 + j] == k1.agent_id@[j]);
        assert(forall|j: int| 0 <= j < 36 ==> s[50 + j] == k2.agent_id@[j]);
    }
    assert(k1.channel@ =~= k2.channel@);
    assert(k1.peer_id@ =~= k2.peer_id@) by {
        assert(s.len() == 101 + ch1 + k1.peer_id@.len());
        assert(key_text(k2).len() == 101 + ch2 + k2.peer_id@.len());
        assert(k1.peer_id@.len() == k2.peer_id@.len());
        assert(forall|j: int| 0 <= j < k1.peer_id@.len() ==> s[101 + ch1 + j] == k1.peer_id@[j]);
        assert(forall|j: int| 0 <= j < k2.peer_id@.len() ==> s[101 + ch2 + j] == k2.peer_id@[j]);
    }
}

} // verus!
