//! Worker authentication: the credential a worker attaches to every
//! dispatch call, and the server-side check that rejects calls without it.

use vstd::prelude::*;

verus! {

/// The well-known metadata field that carries the worker credential.
pub open spec fn auth_metadata_key() -> Seq<char> {
    "x-access-token"@
}

/// Request metadata: ordered key/value entries; for a repeated key the
/// entry added last wins.
pub struct Metadata {
    pub entries: Vec<(String, String)>,
}

/// The value a key resolves to: that of its last entry, if any.
pub open spec fn metadata_value(entries: Seq<(String, String)>, key: Seq<char>) -> Option<
    Seq<char>,
>
    decreases entries.len(),
{
    if entries.len() == 0 {
        None
    } else if entries.last().0@ == key {
        Some(entries.last().1@)
    } else {
        metadata_value(entries.drop_last(), key)
    }
}

/// Metadata that carries the expected worker credential.
pub open spec fn carries_credential(entries: Seq<(String, String)>, token: Seq<char>) -> bool {
    metadata_value(entries, auth_metadata_key()) == Some(token)
}

impl Metadata {
    /// Metadata with no entries.
    pub fn new() -> (r: Self)
        ensures
            r.entries@ == Seq::<(String, String)>::empty(),
    {
        let r = Metadata { entries: Vec::new() };
        proof {
            assert(r.entries@ =~= Seq::<(String, String)>::empty());
        }
        r
    }

    /// Adds an entry; it shadows earlier entries for the same key.
    pub fn insert(&mut self, key: String, value: String)
        ensures
            final(self).entries@ == old(self).entries@.push((key, value)),
    {
        self.entries.push((key, value));
    }
}

/// Attaches a fixed worker credential to every outbound dispatch call.
pub struct AuthTokenSetterInterceptor {
    token: String,
}

impl AuthTokenSetterInterceptor {
    /// The credential this interceptor attaches.
    pub closed spec fn spec_token(&self) -> Seq<char> {
        self.token@
    }

    pub fn new(token: String) -> (r: Self)
        ensures
            r.spec_token() == token@,
    {
        AuthTokenSetterInterceptor { token }
    }

    /// Injects the credential into the request metadata, under the
    /// well-known field; after the call the metadata resolves that field
    /// to the token, whatever it held before.
    pub fn call(&self, metadata: &mut Metadata)
        ensures
            final(metadata).entries@.len() == old(metadata).entries@.len() + 1,
            final(metadata).entries@.drop_last() == old(metadata).entries@,
            final(metadata).entries@.last().0@ == auth_metadata_key(),
            final(metadata).entries@.last().1@ == self.spec_token(),
            carries_credential(final(metadata).entries@, self.spec_token()),
    {
        let key = "x-access-token".to_owned();
        let value = self.token.clone();
        metadata.entries.push((key, value));
        proof {
            assert(metadata.entries@.drop_last() =~= old(metadata).entries@);
        }
    }
}

/// Does the metadata carry exactly the expected credential?
pub fn check_credential(metadata: &Metadata, expected: &String) -> (r: bool)
    ensures
        r == carries_credential(metadata.entries@, expected@),
{
    let key = "x-access-token".to_owned();
    let n = metadata.entries.len();
    let mut i: usize = n;
    proof {
        assert(metadata.entries@.subrange(0, n as int) =~= metadata.entries@);
    }
    while i > 0
        invariant
            i <= n,
            n == metadata.entries@.len(),
            "x-access-token"@ == key@,
            metadata_value(metadata.entries@, auth_metadata_key()) == metadata_value(
                metadata.entries@.subrange(0, i as int),
                auth_metadata_key(),
            ),
        decreases i,
    {
        let entry = &metadata.entries[i - 1];
        let ghost prefix = metadata.entries@.subrange(0, i as int);
        proof {
            assert(prefix.last() == metadata.entries@[i - 1]);
            assert(prefix.drop_last() =~= metadata.entries@.subrange(0, i - 1));
        }
        if entry.0 == key {
            return entry.1 == *expected;
        }
        i -= 1;
    }
    proof {
        assert(metadata.entries@.subrange(0, 0) =~= Seq::<(String, String)>::empty());
    }
    false
}

} // verus!
