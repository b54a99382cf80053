//! Records of the lists contract and their external forms.
use vstd::prelude::*;
use crate::util::clone_opt_string;

verus! {

pub type ListId = u64;

pub type RegistrationId = u64;

pub type TimestampMs = u64;

/// Review status of a registration.
#[derive(PartialEq, Eq, Structural, Clone, Copy)]
pub enum RegistrationStatus {
    Pending,
    Approved,
    Rejected,
    Graylisted,
    Blacklisted,
}

/// A list, as stored.
pub struct ListInternal {
    pub name: String,
    pub description: Option<String>,
    pub owner: String,
    pub created_at: TimestampMs,
    pub updated_at: TimestampMs,
    /// Status given to registrations made by non-admins.
    pub default_registration_status: RegistrationStatus,
}

impl ListInternal {
    /// A field-by-field copy.
    pub fn copy(&self) -> (r: ListInternal)
        ensures
            r == *self,
    {
        ListInternal {
            name: self.name.clone(),
            description: clone_opt_string(&self.description),
            owner: self.owner.clone(),
            created_at: self.created_at,
            updated_at: self.updated_at,
            default_registration_status: self.default_registration_status,
        }
    }
}

/// Versioned storage form of a list.
pub enum VersionedList {
    Current(ListInternal),
}

impl From<VersionedList> for ListInternal {
    fn from(list: VersionedList) -> (r: Self) {
        match list {
            VersionedList::Current(current) => current,
        }
    }
}

impl vstd::std_specs::convert::FromSpecImpl<VersionedList> for ListInternal {
    open spec fn obeys_from_spec() -> bool {
        true
    }

    open spec fn from_spec(v: VersionedList) -> Self {
        match v {
            VersionedList::Current(current) => current,
        }
    }
}

/// A list as returned by views, with its admins and counts.
pub struct ListExternal {
    pub id: ListId,
    pub name: String,
    pub description: Option<String>,
    pub owner: String,
    pub admins: Vec<String>,
    pub created_at: TimestampMs,
    pub updated_at: TimestampMs,
    pub default_registration_status: RegistrationStatus,
    pub total_registrations_count: u64,
    pub total_upvotes_count: u64,
}

/// A registration, as stored.
pub struct RegistrationInternal {
    pub registrant_id: String,
    pub list_id: ListId,
    pub status: RegistrationStatus,
    pub submitted_ms: TimestampMs,
    pub updated_ms: TimestampMs,
    pub admin_notes: Option<String>,
    pub registrant_notes: Option<String>,
    /// The list owner or admin who registered the account; `None` when it
    /// registered itself.
    pub registered_by: Option<String>,
}

impl RegistrationInternal {
    /// A field-by-field copy.
    pub fn copy(&self) -> (r: RegistrationInternal)
        ensures
            r == *self,
    {
        RegistrationInternal {
            registrant_id: self.registrant_id.clone(),
            list_id: self.list_id,
            status: self.status,
            submitted_ms: self.submitted_ms,
            updated_ms: self.updated_ms,
            admin_notes: clone_opt_string(&self.admin_notes),
            registrant_notes: clone_opt_string(&self.registrant_notes),
            registered_by: clone_opt_string(&self.registered_by),
        }
    }
}

/// Versioned storage form of a registration.
pub enum VersionedRegistrationInternal {
    Current(RegistrationInternal),
}

impl From<VersionedRegistrationInternal> for RegistrationInternal {
    fn from(registration_internal: VersionedRegistrationInternal) -> (r: Self) {
        match registration_internal {
            VersionedRegistrationInternal::Current(current) => current,
        }
    }
}

impl vstd::std_specs::convert::FromSpecImpl<VersionedRegistrationInternal> for RegistrationInternal {
    open spec fn obeys_from_spec() -> bool {
        true
    }

    open spec fn from_spec(v: VersionedRegistrationInternal) -> Self {
        match v {
            VersionedRegistrationInternal::Current(current) => current,
        }
    }
}

/// A registration as returned by views.
pub struct RegistrationExternal {
    pub id: RegistrationId,
    pub registrant_id: String,
    pub list_id: ListId,
    pub status: RegistrationStatus,
    pub submitted_ms: TimestampMs,
    pub updated_ms: TimestampMs,
    pub admin_notes: Option<String>,
    pub registrant_notes: Option<String>,
    /// Who registered the account (the account itself when it did).
    pub registered_by: String,
}

/// A registration made by a list admin in a batch.
pub struct RegistrationInput {
    pub registrant_id: String,
    pub status: RegistrationStatus,
    pub submitted_ms: Option<TimestampMs>,
    pub updated_ms: Option<TimestampMs>,
    pub notes: Option<String>,
}

/// The external form of registration `registration_id`.
pub open spec fn spec_format_registration(registration_id: RegistrationId, r: RegistrationInternal) -> RegistrationExternal {
    RegistrationExternal {
        id: registration_id,
        registrant_id: r.registrant_id,
        list_id: r.list_id,
        status: r.status,
        submitted_ms: r.submitted_ms,
        updated_ms: r.updated_ms,
        admin_notes: r.admin_notes,
        registrant_notes: r.registrant_notes,
        registered_by: match r.registered_by {
            Some(a) => a,
            None => r.registrant_id,
        },
    }
}

/// The external form of registration `registration_id` (see `spec_format_registration`).
pub fn format_registration(registration_id: RegistrationId, registration_internal: RegistrationInternal) -> (r: RegistrationExternal)
    ensures
        r == spec_format_registration(registration_id, registration_internal),
{
    let registered_by = match &registration_internal.registered_by {
        Some(a) => a.clone(),
        None => registration_internal.registrant_id.clone(),
    };
    RegistrationExternal {
        id: registration_id,
        registrant_id: registration_internal.registrant_id,
        list_id: registration_internal.list_id,
        status: registration_internal.status,
        submitted_ms: registration_internal.submitted_ms,
        updated_ms: registration_internal.updated_ms,
        admin_notes: registration_internal.admin_notes,
        registrant_notes: registration_internal.registrant_notes,
        registered_by,
    }
}

/// Why a call to the lists contract is refused.
#[derive(PartialEq, Eq, Structural, Clone, Copy)]
pub enum ListError {
    ListNotFound,
    OwnerOnly,
    AdminOnly,
    DepositRequired,
    NameTooLong,
    DescriptionTooLong,
    InvalidUrl,
    AlreadyRegistered,
    RegistrationNotFound,
    RegistrationsRequired,
    BatchTooLarge,
    NotAllowed,
    NotPending,
    ArithmeticOverflow,
    /// A page starts past the end of the list.
    OutOfBounds,
    /// A page of at most zero items was asked for.
    ZeroLimit,
}

} // verus!
