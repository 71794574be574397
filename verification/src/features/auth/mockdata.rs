//! The development key store: two hard-coded API keys.

use super::models::{ApiKeyInfo, ApiKeyInfoView};
use crate::keyed::{keyed_map, keys_distinct, lemma_keyed_map};
use vstd::prelude::*;
use vstd::string::*;

verus! {

/// The test key's record.
pub open spec fn test_key_info() -> ApiKeyInfoView {
    ApiKeyInfoView {
        id: "key_001"@,
        client_id: "test-client-456"@,
        key_hash: "test-api-key-123"@,
        name: Some("Test API Key"@),
        created_at: "2025-09-04T00:00:00Z"@,
        last_used_at: Some("2025-09-04T04:00:00Z"@),
        is_active: true,
    }
}

/// The development key's record.
pub open spec fn dev_key_info() -> ApiKeyInfoView {
    ApiKeyInfoView {
        id: "key_002"@,
        client_id: "dev-client-789"@,
        key_hash: "dev-api-key-456"@,
        name: Some("Development API Key"@),
        created_at: "2025-09-04T01:00:00Z"@,
        last_used_at: None,
        is_active: true,
    }
}

/// The key store, by key hash. The plain key stands in for its hash.
pub open spec fn mock_api_keys() -> Map<Seq<char>, ApiKeyInfoView> {
    map!["test-api-key-123"@ => test_key_info(), "dev-api-key-456"@ => dev_key_info()]
}

/// The record stored under a key hash, if any.
pub open spec fn mock_key_lookup(key_hash: Seq<char>) -> Option<ApiKeyInfoView> {
    if mock_api_keys().contains_key(key_hash) {
        Some(mock_api_keys()[key_hash])
    } else {
        None
    }
}

/// The client id of the mock client context.
pub open spec fn mock_client_id() -> Seq<char> {
    "test-client-456"@
}

/// The views of a list of key records, by key hash.
pub open spec fn records_view(v: Seq<ApiKeyInfo>) -> Seq<(Seq<char>, ApiKeyInfoView)> {
    v.map_values(|k: ApiKeyInfo| (k.key_hash@, k@))
}

fn text(s: &str) -> (r: String)
    ensures
        r@ == s@,
{
    String::from_str(s)
}

/// Provider of the development key store.
pub struct MockAuthDataProvider;

impl MockAuthDataProvider {
    /// The record stored under `key_hash`, if any.
    pub fn get_api_key_by_hash(key_hash: &str) -> (r: Option<ApiKeyInfo>)
        ensures
            match r {
                Some(k) => mock_key_lookup(key_hash@) == Some(k@),
                None => mock_key_lookup(key_hash@) is None,
            },
    {
        let keys = Self::get_mock_api_keys();
        let ghost rv = records_view(keys@);
        proof {
            lemma_keyed_map(rv);
        }
        let n = keys.len();
        let mut i: usize = 0;
        while i < n
            invariant
                n == keys@.len(),
                rv == records_view(keys@),
                keys_distinct(rv),
                keyed_map(rv) == mock_api_keys(),
                i <= n,
                forall|j: int| 0 <= j < i ==> keys@[j].key_hash@ != key_hash@,
            decreases n - i,
        {
            if crate::text::same_text(keys[i].key_hash.as_str(), key_hash) {
                proof {
                    lemma_keyed_map(rv);
                    assert(rv[i as int] == (keys@[i as int].key_hash@, keys@[i as int]@));
                }
                return Some(keys[i].copy());
            }
            i = i + 1;
        }
        proof {
            lemma_keyed_map(rv);
            if mock_api_keys().contains_key(key_hash@) {
                let j = choose|j: int| 0 <= j < rv.len() && rv[j].0 == key_hash@;
                assert(rv[j].0 == keys@[j].key_hash@);
            }
        }
        None
    }

    /// The whole key store: one record per key hash.
    pub fn get_mock_api_keys() -> (r: Vec<ApiKeyInfo>)
        ensures
            keys_distinct(records_view(r@)),
            keyed_map(records_view(r@)) == mock_api_keys(),
    {
        proof {
            reveal_strlit("key_001");
            reveal_strlit("test-client-456");
            reveal_strlit("test-api-key-123");
            reveal_strlit("Test API Key");
            reveal_strlit("2025-09-04T00:00:00Z");
            reveal_strlit("2025-09-04T04:00:00Z");
            reveal_strlit("key_002");
            reveal_strlit("dev-client-789");
            reveal_strlit("dev-api-key-456");
            reveal_strlit("Development API Key");
            reveal_strlit("2025-09-04T01:00:00Z");
        }
        let mut keys: Vec<ApiKeyInfo> = Vec::new();
        keys.push(
            ApiKeyInfo {
                id: text("key_001"),
                client_id: text("test-client-456"),
                key_hash: text("test-api-key-123"),
                name: Some(text("Test API Key")),
                created_at: text("2025-09-04T00:00:00Z"),
                last_used_at: Some(text("2025-09-04T04:00:00Z")),
                is_active: true,
            },
        );
        keys.push(
            ApiKeyInfo {
                id: text("key_002"),
                client_id: text("dev-client-789"),
                key_hash: text("dev-api-key-456"),
                name: Some(text("Development API Key")),
                created_at: text("2025-09-04T01:00:00Z"),
                last_used_at: None,
                is_active: true,
            },
        );
        proof {
            let rv = records_view(keys@);
            assert(rv.len() == 2);
            assert(rv[0].0[0] != rv[1].0[0]);
            assert(rv[0].0 != rv[1].0);
            let r1 = rv.drop_last();
            assert(r1.drop_last() =~= Seq::<(Seq<char>, ApiKeyInfoView)>::empty());
            assert(keyed_map(r1.drop_last()) == Map::<Seq<char>, ApiKeyInfoView>::empty());
            assert(keyed_map(r1) == Map::<Seq<char>, ApiKeyInfoView>::empty().insert(rv[0].0, rv[0].1));
            assert(keyed_map(rv) == keyed_map(r1).insert(rv[1].0, rv[1].1));
            assert(rv[0].1 == test_key_info());
            assert(rv[1].1 == dev_key_info());
            assert(keyed_map(rv) =~= mock_api_keys());
        }
        keys
    }

    /// The client id of the mock client.
    pub fn get_mock_client_id() -> (r: String)
        ensures
            r@ == mock_client_id(),
    {
        proof { reveal_strlit("test-client-456"); }
        text("test-client-456")
    }
}

} // verus!
