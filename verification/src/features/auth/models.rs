use vstd::prelude::*;

verus! {

/// Who a request was authenticated as; injected into requests once
/// authentication succeeds.
#[derive(Debug)]
pub struct AuthContext {
    pub client_id: String,
}

/// An API key as the key store holds it.
#[derive(Debug)]
pub struct ApiKeyInfo {
    pub id: String,
    pub client_id: String,
    /// Hash of the key under which it is looked up.
    pub key_hash: String,
    pub name: Option<String>,
    pub created_at: String,
    pub last_used_at: Option<String>,
    pub is_active: bool,
}

/// An API key with its texts taken as character sequences.
pub struct ApiKeyInfoView {
    pub id: Seq<char>,
    pub client_id: Seq<char>,
    pub key_hash: Seq<char>,
    pub name: Option<Seq<char>>,
    pub created_at: Seq<char>,
    pub last_used_at: Option<Seq<char>>,
    pub is_active: bool,
}

/// The view of an optional text.
pub open spec fn opt_view(o: Option<String>) -> Option<Seq<char>> {
    match o {
        Some(s) => Some(s@),
        None => None,
    }
}

impl View for ApiKeyInfo {
    type V = ApiKeyInfoView;

    open spec fn view(&self) -> ApiKeyInfoView {
        ApiKeyInfoView {
            id: self.id@,
            client_id: self.client_id@,
            key_hash: self.key_hash@,
            name: opt_view(self.name),
            created_at: self.created_at@,
            last_used_at: opt_view(self.last_used_at),
            is_active: self.is_active,
        }
    }
}

fn copy_opt(o: &Option<String>) -> (r: Option<String>)
    ensures
        opt_view(r) == opt_view(*o),
{
    match o {
        Some(s) => Some(s.clone()),
        None => None,
    }
}

impl ApiKeyInfo {
    /// A copy of this key record.
    pub fn copy(&self) -> (r: ApiKeyInfo)
        ensures
            r@ == self@,
    {
        ApiKeyInfo {
            id: self.id.clone(),
            client_id: self.client_id.clone(),
            key_hash: self.key_hash.clone(),
            name: copy_opt(&self.name),
            created_at: self.created_at.clone(),
            last_used_at: copy_opt(&self.last_used_at),
            is_active: self.is_active,
        }
    }
}

} // verus!
