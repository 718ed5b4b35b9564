//! Stored contacts and the name they are shown by.
use vstd::prelude::*;

use crate::text::string_of;

verus! {

/// Whether a contact's safety number was checked.
#[derive(Debug, Clone, Copy, PartialEq, Eq, Structural)]
pub enum VerificationState {
    Default,
    Verified,
    Unverified,
}

/// A contact as the local store keeps it.
#[derive(Debug, Clone)]
pub struct StoredContact {
    pub id: String,
    pub uuid: String,
    pub phone_number: Option<String>,
    pub name: String,
    pub profile_name: Option<String>,
    pub avatar_path: Option<String>,
    pub profile_key: Option<Vec<u8>>,
    pub is_blocked: bool,
    pub is_verified: bool,
    pub created_at: i64,
    pub updated_at: i64,
}

impl StoredContact {
    /// The name to show: the profile name, else the contact name, where not
    /// empty; else the phone number; else the UUID.
    pub open spec fn display_name_spec(&self) -> Seq<char> {
        if self.profile_name is Some && self.profile_name->0@.len() > 0 {
            self.profile_name->0@
        } else if self.name@.len() > 0 {
            self.name@
        } else {
            match self.phone_number {
                Some(p) => p@,
                None => self.uuid@,
            }
        }
    }

    pub fn display_name(&self) -> (r: &str)
        ensures
            r@ == self.display_name_spec(),
    {
        match &self.profile_name {
            Some(p) => {
                if !p.as_str().is_empty() {
                    return p.as_str();
                }
            },
            None => {},
        }
        if !self.name.as_str().is_empty() {
            return self.name.as_str();
        }
        match &self.phone_number {
            Some(p) => p.as_str(),
            None => self.uuid.as_str(),
        }
    }
}

/// A contact of the account's contact list as the local store keeps it: its
/// id is its UUID, an empty name is no profile name, an empty profile key is
/// none; it is neither blocked nor verified, and dated `now`.
pub fn contact_from_sync(
    uuid: String,
    phone_number: Option<String>,
    name: String,
    profile_key: Vec<u8>,
    now: i64,
) -> (r: StoredContact)
    ensures
        r.id@ == uuid@ && r.uuid@ == uuid@ && r.phone_number == phone_number,
        r.name == name,
        name@.len() == 0 ==> r.profile_name is None,
        name@.len() > 0 ==> (r.profile_name matches Some(p) && p@ == name@),
        profile_key@.len() == 0 ==> r.profile_key is None,
        profile_key@.len() > 0 ==> r.profile_key == Some(profile_key),
        r.avatar_path is None && !r.is_blocked && !r.is_verified,
        r.created_at == now && r.updated_at == now,
{
    let profile_name = if name.as_str().is_empty() {
        None
    } else {
        Some(string_of(name.as_str()))
    };
    let profile_key = if profile_key.len() == 0 {
        None
    } else {
        Some(profile_key)
    };
    StoredContact {
        id: string_of(uuid.as_str()),
        uuid,
        phone_number,
        name,
        profile_name,
        avatar_path: None,
        profile_key,
        is_blocked: false,
        is_verified: false,
        created_at: now,
        updated_at: now,
    }
}

} // verus!
