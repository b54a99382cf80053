//! State of the lists contract, who may change a list, and the lifecycle of
//! lists, their admins and their upvotes.
use vstd::prelude::*;
use crate::collections::{
    account_sets_add, account_sets_del, account_sets_wf, id_sets_wf, set_add, set_del, AccountMap,
    AccountSet, IdMap, IdSet,
};
use crate::env::CallContext;
use crate::lists::types::{ListError, ListExternal, ListId, ListInternal, RegistrationInternal, RegistrationStatus};
use crate::pot::types::ContractSourceMetadata;
use crate::util::{clone_opt_string, unwrap_or};

verus! {

/// The lists contract.
pub struct Contract {
    pub next_list_id: ListId,
    pub next_registration_id: u64,
    pub lists_by_id: IdMap<ListInternal>,
    pub list_ids_by_owner: AccountMap<IdSet>,
    pub list_ids_by_registrant: AccountMap<IdSet>,
    pub list_admins_by_list_id: IdMap<AccountSet>,
    pub registrations_by_id: IdMap<RegistrationInternal>,
    pub registration_ids_by_list_id: IdMap<IdSet>,
    pub registration_ids_by_registrant_id: AccountMap<IdSet>,
    pub upvotes_by_list_id: IdMap<AccountSet>,
    pub refund_claims_by_registrant_id: AccountMap<u128>,
    pub contract_source_metadata: Option<ContractSourceMetadata>,
}

/// Every account set stored in `m` is well formed.
pub open spec fn account_sets_by_id_wf(m: Map<u64, AccountSet>) -> bool {
    forall|k: u64| #[trigger] m.contains_key(k) ==> m[k].wf()
}

impl Contract {
    /// All collections are well formed.
    pub open spec fn wf(&self) -> bool {
        &&& self.lists_by_id.wf()
        &&& self.list_ids_by_owner.wf()
        &&& account_sets_wf(self.list_ids_by_owner@)
        &&& self.list_ids_by_registrant.wf()
        &&& account_sets_wf(self.list_ids_by_registrant@)
        &&& self.list_admins_by_list_id.wf()
        &&& account_sets_by_id_wf(self.list_admins_by_list_id@)
        &&& self.registrations_by_id.wf()
        &&& self.registration_ids_by_list_id.wf()
        &&& id_sets_wf(self.registration_ids_by_list_id@)
        &&& self.registration_ids_by_registrant_id.wf()
        &&& account_sets_wf(self.registration_ids_by_registrant_id@)
        &&& self.upvotes_by_list_id.wf()
        &&& account_sets_by_id_wf(self.upvotes_by_list_id@)
        &&& self.refund_claims_by_registrant_id.wf()
    }

    /// A new lists contract: IDs start at 1.
    pub fn new(source_metadata: ContractSourceMetadata) -> (c: Self)
        ensures
            c.wf(),
            c.next_list_id == 1,
            c.next_registration_id == 1,
            c.lists_by_id@.len() == 0,
            c.registrations_by_id@.len() == 0,
            c.contract_source_metadata == Some(source_metadata),
    {
        Contract {
            next_list_id: 1,
            next_registration_id: 1,
            lists_by_id: IdMap::new(),
            list_ids_by_owner: AccountMap::new(),
            list_ids_by_registrant: AccountMap::new(),
            list_admins_by_list_id: IdMap::new(),
            registrations_by_id: IdMap::new(),
            registration_ids_by_list_id: IdMap::new(),
            registration_ids_by_registrant_id: AccountMap::new(),
            upvotes_by_list_id: IdMap::new(),
            refund_claims_by_registrant_id: AccountMap::new(),
            contract_source_metadata: Some(source_metadata),
        }
    }

    /// The caller is the list's owner or one of its admins; `None` when the
    /// list or its admin set is missing.
    pub open spec fn spec_is_list_admin(&self, caller: Seq<char>, list_id: ListId) -> Option<bool> {
        if !self.lists_by_id@.contains_key(list_id) || !self.list_admins_by_list_id@.contains_key(list_id) {
            None
        } else {
            Some(self.lists_by_id@[list_id].owner@ == caller || self.list_admins_by_list_id@[list_id]@.contains(caller))
        }
    }

    /// Whether the caller is the list's owner or one of its admins (see `spec_is_list_admin`).
    pub fn is_caller_list_admin_or_greater(&self, ctx: &CallContext, list_id: ListId) -> (r: Result<bool, ListError>)
        requires
            self.wf(),
        ensures
            match self.spec_is_list_admin(ctx.predecessor@, list_id) {
                Some(b) => r == Ok::<bool, ListError>(b),
                None => r == Err::<bool, ListError>(ListError::ListNotFound),
            },
    {
        let owner_matches = match self.lists_by_id.get(list_id) {
            None => return Err(ListError::ListNotFound),
            Some(l) => l.owner == ctx.predecessor,
        };
        match self.list_admins_by_list_id.get(list_id) {
            None => Err(ListError::ListNotFound),
            Some(admins) => Ok(owner_matches || admins.contains(&ctx.predecessor)),
        }
    }

    /// Owner check of a list (which must carry at least one yoctoNEAR).
    pub open spec fn spec_list_owner_check(&self, ctx: CallContext, list_id: ListId) -> Result<(), ListError> {
        if !self.lists_by_id@.contains_key(list_id) {
            Err(ListError::ListNotFound)
        } else if ctx.predecessor@ != self.lists_by_id@[list_id].owner@ {
            Err(ListError::OwnerOnly)
        } else if ctx.attached_deposit < 1 {
            Err(ListError::DepositRequired)
        } else {
            Ok(())
        }
    }

    pub fn assert_list_owner(&self, ctx: &CallContext, list_id: ListId) -> (r: Result<(), ListError>)
        requires
            self.wf(),
        ensures
            r == self.spec_list_owner_check(*ctx, list_id),
    {
        match self.lists_by_id.get(list_id) {
            None => Err(ListError::ListNotFound),
            Some(l) => {
                if ctx.predecessor != l.owner {
                    Err(ListError::OwnerOnly)
                } else if ctx.attached_deposit < 1 {
                    Err(ListError::DepositRequired)
                } else {
                    Ok(())
                }
            },
        }
    }

    /// Admin (or owner) check of a list (which must carry at least one yoctoNEAR).
    pub fn assert_list_admin_or_greater(&self, ctx: &CallContext, list_id: ListId) -> (r: Result<(), ListError>)
        requires
            self.wf(),
        ensures
            match self.spec_is_list_admin(ctx.predecessor@, list_id) {
                None => r == Err::<(), ListError>(ListError::ListNotFound),
                Some(false) => r == Err::<(), ListError>(ListError::AdminOnly),
                Some(true) => r == (if ctx.attached_deposit < 1 { Err::<(), ListError>(ListError::DepositRequired) } else { Ok(()) }),
            },
    {
        if !self.is_caller_list_admin_or_greater(ctx, list_id)? {
            return Err(ListError::AdminOnly);
        }
        if ctx.attached_deposit < 1 {
            return Err(ListError::DepositRequired);
        }
        Ok(())
    }

    /// The sets that the external form of list `list_id` reads are present.
    pub open spec fn spec_can_format(&self, list_id: ListId) -> bool {
        &&& self.list_admins_by_list_id@.contains_key(list_id)
        &&& self.registration_ids_by_list_id@.contains_key(list_id)
        &&& self.upvotes_by_list_id@.contains_key(list_id)
    }

    /// `e` is the external form of list `list_id` with record `list_internal`.
    pub open spec fn spec_list_external(&self, e: ListExternal, list_id: ListId, list_internal: ListInternal) -> bool {
        &&& e.id == list_id
        &&& e.name == list_internal.name
        &&& e.description == list_internal.description
        &&& e.owner == list_internal.owner
        &&& e.admins@.map_values(|s: String| s@) == self.list_admins_by_list_id@[list_id]@
        &&& e.created_at == list_internal.created_at
        &&& e.updated_at == list_internal.updated_at
        &&& e.default_registration_status == list_internal.default_registration_status
        &&& e.total_registrations_count == self.registration_ids_by_list_id@[list_id]@.len()
        &&& e.total_upvotes_count == self.upvotes_by_list_id@[list_id]@.len()
    }

    /// The external form of list `list_id`: its admins and its counts of
    /// registrations and upvotes; refused when one of those sets is missing.
    pub fn format_list(&self, list_id: ListId, list_internal: ListInternal) -> (r: Result<ListExternal, ListError>)
        requires
            self.wf(),
        ensures
            r is Ok <==> self.spec_can_format(list_id),
            r is Err ==> r == Err::<ListExternal, ListError>(ListError::ListNotFound),
            r matches Ok(e) ==> self.spec_list_external(e, list_id, list_internal),
    {
        let admins = match self.list_admins_by_list_id.get(list_id) {
            None => return Err(ListError::ListNotFound),
            Some(a) => a.to_vec(),
        };
        let registrations = match self.registration_ids_by_list_id.get(list_id) {
            None => return Err(ListError::ListNotFound),
            Some(s) => s.len(),
        };
        let upvotes = match self.upvotes_by_list_id.get(list_id) {
            None => return Err(ListError::ListNotFound),
            Some(s) => s.len(),
        };
        Ok(ListExternal {
            id: list_id,
            name: list_internal.name,
            description: list_internal.description,
            owner: list_internal.owner,
            admins,
            created_at: list_internal.created_at,
            updated_at: list_internal.updated_at,
            default_registration_status: list_internal.default_registration_status,
            total_registrations_count: registrations as u64,
            total_upvotes_count: upvotes as u64,
        })
    }

    /// Creates a list owned by the caller, with the given admins, no
    /// registrations and no upvotes, under the next list ID.
    pub fn create_list(
        &mut self,
        ctx: &CallContext,
        name: String,
        description: Option<String>,
        admins: Option<Vec<String>>,
        default_registration_status: RegistrationStatus,
    ) -> (r: Result<ListExternal, ListError>)
        requires
            old(self).wf(),
        ensures
            final(self).wf(),
            r is Err ==> *final(self) == *old(self),
            (r is Err) <==> old(self).next_list_id == u64::MAX,
            r matches Err(e) ==> e == ListError::ArithmeticOverflow,
            r matches Ok(e) ==> {
                let id = old(self).next_list_id;
                let list = ListInternal {
                    name,
                    description,
                    owner: ctx.predecessor,
                    created_at: ctx.block_timestamp_ms,
                    updated_at: ctx.block_timestamp_ms,
                    default_registration_status,
                };
                &&& e.id == id
                &&& final(self).next_list_id == id + 1
                &&& final(self).lists_by_id@ == old(self).lists_by_id@.insert(id, list)
                &&& final(self).list_ids_by_owner@[ctx.predecessor@]@ == set_add(
                    crate::campaigns::contract::account_ids(old(self).list_ids_by_owner@, ctx.predecessor@), id)
                &&& forall|a: Seq<char>| #[trigger] final(self).list_admins_by_list_id@[id]@.contains(a) <==> (match admins {
                    Some(v) => v@.map_values(|s: String| s@).contains(a),
                    None => false,
                })
                &&& final(self).registration_ids_by_list_id@[id]@.len() == 0
                &&& final(self).upvotes_by_list_id@[id]@.len() == 0
                &&& e.total_registrations_count == 0 && e.total_upvotes_count == 0
                &&& final(self).spec_list_external(e, id, list)
                &&& final(self).registrations_by_id == old(self).registrations_by_id
            },
    {
        if self.next_list_id == u64::MAX {
            return Err(ListError::ArithmeticOverflow);
        }
        let list_id = self.next_list_id;
        let list = ListInternal {
            name,
            description,
            owner: ctx.predecessor.clone(),
            created_at: ctx.block_timestamp_ms,
            updated_at: ctx.block_timestamp_ms,
            default_registration_status,
        };
        self.lists_by_id.insert(list_id, list.copy());
        account_sets_add(&mut self.list_ids_by_owner, &ctx.predecessor, list_id);
        let admins_set = match &admins {
            Some(v) => AccountSet::from_vec(v),
            None => AccountSet::new(),
        };
        self.list_admins_by_list_id.insert(list_id, admins_set);
        self.registration_ids_by_list_id.insert(list_id, IdSet::new());
        self.upvotes_by_list_id.insert(list_id, AccountSet::new());
        self.next_list_id = self.next_list_id + 1;
        match self.format_list(list_id, list) {
            Ok(e) => Ok(e),
            Err(e) => {
                assert(false);
                Err(e)
            },
        }
    }

    /// Updates a list's name, description and default registration status
    /// (each when given) and its update time (owner only).
    pub fn update_list(
        &mut self,
        ctx: &CallContext,
        list_id: ListId,
        name: Option<String>,
        description: Option<String>,
        default_registration_status: Option<RegistrationStatus>,
    ) -> (r: Result<ListExternal, ListError>)
        requires
            old(self).wf(),
        ensures
            final(self).wf(),
            r is Err ==> *final(self) == *old(self),
            old(self).spec_list_owner_check(*ctx, list_id) is Err ==> r == Err::<ListExternal, ListError>(old(self).spec_list_owner_check(*ctx, list_id)->Err_0),
            r is Ok ==> old(self).spec_list_owner_check(*ctx, list_id) is Ok,
            old(self).spec_list_owner_check(*ctx, list_id) is Ok ==> (r is Ok <==> old(self).spec_can_format(list_id)),
            old(self).spec_list_owner_check(*ctx, list_id) is Ok && !old(self).spec_can_format(list_id)
                ==> r == Err::<ListExternal, ListError>(ListError::ListNotFound),
            r matches Ok(e) ==> {
                let l = old(self).lists_by_id@[list_id];
                let updated = ListInternal {
                    name: unwrap_or(name, l.name),
                    description: if description is Some { description } else { l.description },
                    default_registration_status: unwrap_or(default_registration_status, l.default_registration_status),
                    updated_at: ctx.block_timestamp_ms,
                    ..l
                };
                &&& final(self).lists_by_id@ == old(self).lists_by_id@.insert(list_id, updated)
                &&& *final(self) == (Contract { lists_by_id: final(self).lists_by_id, ..*old(self) })
                &&& final(self).spec_list_external(e, list_id, updated)
            },
    {
        self.assert_list_owner(ctx, list_id)?;
        let mut list = match self.lists_by_id.get(list_id) {
            None => return Err(ListError::ListNotFound),
            Some(l) => l.copy(),
        };
        match name { Some(n) => { list.name = n; }, None => {} }
        match description { Some(d) => { list.description = Some(d); }, None => {} }
        match default_registration_status { Some(s) => { list.default_registration_status = s; }, None => {} }
        list.updated_at = ctx.block_timestamp_ms;
        if !self.list_admins_by_list_id.contains_key(list_id) || !self.registration_ids_by_list_id.contains_key(list_id)
            || !self.upvotes_by_list_id.contains_key(list_id) {
            return Err(ListError::ListNotFound);
        }
        self.lists_by_id.insert(list_id, list.copy());
        match self.format_list(list_id, list) {
            Ok(e) => Ok(e),
            Err(e) => {
                assert(false);
                Err(e)
            },
        }
    }

    /// Upvotes a list by the caller (once per account).
    pub fn upvote(&mut self, ctx: &CallContext, list_id: ListId) -> (r: Result<bool, ListError>)
        requires
            old(self).wf(),
        ensures
            final(self).wf(),
            r is Err ==> *final(self) == *old(self),
            (r is Err) <==> !old(self).upvotes_by_list_id@.contains_key(list_id),
            r matches Ok(added) ==> {
                &&& added == !old(self).upvotes_by_list_id@[list_id]@.contains(ctx.predecessor@)
                &&& final(self).upvotes_by_list_id@[list_id]@ == (if added { old(self).upvotes_by_list_id@[list_id]@.push(ctx.predecessor@) } else { old(self).upvotes_by_list_id@[list_id]@ })
                &&& final(self).upvotes_by_list_id@.dom() == old(self).upvotes_by_list_id@.dom()
                &&& final(self).lists_by_id == old(self).lists_by_id
            },
    {
        let mut upvotes = match self.upvotes_by_list_id.get(list_id) {
            None => return Err(ListError::ListNotFound),
            Some(u) => u.copy(),
        };
        let added = upvotes.insert(ctx.predecessor.clone());
        self.upvotes_by_list_id.insert(list_id, upvotes);
        proof {
            assert(self.upvotes_by_list_id@.dom() =~= old(self).upvotes_by_list_id@.dom());
        }
        Ok(added)
    }

    /// Removes the caller's upvote of a list, if any.
    pub fn remove_upvote(&mut self, ctx: &CallContext, list_id: ListId) -> (r: Result<bool, ListError>)
        requires
            old(self).wf(),
        ensures
            final(self).wf(),
            r is Err ==> *final(self) == *old(self),
            (r is Err) <==> !old(self).upvotes_by_list_id@.contains_key(list_id),
            r matches Ok(removed) ==> {
                &&& removed == old(self).upvotes_by_list_id@[list_id]@.contains(ctx.predecessor@)
                &&& forall|a: Seq<char>| #[trigger] final(self).upvotes_by_list_id@[list_id]@.contains(a) <==> (old(self).upvotes_by_list_id@[list_id]@.contains(a) && a != ctx.predecessor@)
                &&& final(self).upvotes_by_list_id@.dom() == old(self).upvotes_by_list_id@.dom()
                &&& final(self).lists_by_id == old(self).lists_by_id
            },
    {
        let mut upvotes = match self.upvotes_by_list_id.get(list_id) {
            None => return Err(ListError::ListNotFound),
            Some(u) => u.copy(),
        };
        let removed = upvotes.remove(&ctx.predecessor);
        self.upvotes_by_list_id.insert(list_id, upvotes);
        proof {
            assert(self.upvotes_by_list_id@.dom() =~= old(self).upvotes_by_list_id@.dom());
        }
        Ok(removed)
    }

    /// Transfers a list to `new_owner_id` (owner only): the list moves from
    /// the old owner's lists to the new owner's.
    pub fn owner_change_owner(&mut self, ctx: &CallContext, list_id: ListId, new_owner_id: String) -> (r: Result<String, ListError>)
        requires
            old(self).wf(),
        ensures
            final(self).wf(),
            r is Err ==> *final(self) == *old(self),
            old(self).spec_list_owner_check(*ctx, list_id) is Err ==> r == Err::<String, ListError>(old(self).spec_list_owner_check(*ctx, list_id)->Err_0),
            old(self).spec_list_owner_check(*ctx, list_id) is Ok ==> {
                let old_owner = old(self).lists_by_id@[list_id].owner@;
                &&& (r is Ok <==> old(self).list_ids_by_owner@.contains_key(old_owner))
                &&& r matches Err(e) ==> e == ListError::ListNotFound
                &&& r matches Ok(o) ==> {
                    &&& o == new_owner_id
                    &&& final(self).lists_by_id@ == old(self).lists_by_id@.insert(list_id, ListInternal { owner: new_owner_id, ..old(self).lists_by_id@[list_id] })
                    &&& new_owner_id@ != old_owner ==> final(self).list_ids_by_owner@[new_owner_id@]@ == set_add(
                        crate::campaigns::contract::account_ids(old(self).list_ids_by_owner@, new_owner_id@), list_id)
                    &&& new_owner_id@ != old_owner ==> final(self).list_ids_by_owner@[old_owner]@ == set_del(old(self).list_ids_by_owner@[old_owner]@, list_id)
                    &&& new_owner_id@ == old_owner ==> final(self).list_ids_by_owner@[old_owner]@ == set_add(set_del(old(self).list_ids_by_owner@[old_owner]@, list_id), list_id)
                }
            },
    {
        self.assert_list_owner(ctx, list_id)?;
        let list = match self.lists_by_id.get(list_id) {
            None => return Err(ListError::ListNotFound),
            Some(l) => l.copy(),
        };
        let old_owner = list.owner.clone();
        if !self.list_ids_by_owner.contains_key(&old_owner) {
            return Err(ListError::ListNotFound);
        }
        self.lists_by_id.insert(list_id, ListInternal { owner: new_owner_id.clone(), ..list });
        account_sets_del(&mut self.list_ids_by_owner, &old_owner, list_id);
        account_sets_add(&mut self.list_ids_by_owner, &new_owner_id, list_id);
        Ok(new_owner_id)
    }

    /// Adds admins to a list (owner only); returns the admins.
    pub fn owner_add_admins(&mut self, ctx: &CallContext, list_id: ListId, admins: Vec<String>) -> (r: Result<Vec<String>, ListError>)
        requires
            old(self).wf(),
        ensures
            final(self).wf(),
            r is Err ==> *final(self) == *old(self),
            old(self).spec_list_owner_check(*ctx, list_id) is Err ==> r == Err::<Vec<String>, ListError>(old(self).spec_list_owner_check(*ctx, list_id)->Err_0),
            old(self).spec_list_owner_check(*ctx, list_id) is Ok ==> {
                &&& (r is Ok <==> old(self).list_admins_by_list_id@.contains_key(list_id))
                &&& r matches Ok(v) ==> {
                    &&& forall|a: Seq<char>| #[trigger] final(self).list_admins_by_list_id@[list_id]@.contains(a) <==> (
                        old(self).list_admins_by_list_id@[list_id]@.contains(a) || admins@.map_values(|s: String| s@).contains(a))
                    &&& v@.map_values(|s: String| s@) == final(self).list_admins_by_list_id@[list_id]@
                }
            },
    {
        self.assert_list_owner(ctx, list_id)?;
        let mut set = match self.list_admins_by_list_id.get(list_id) {
            None => return Err(ListError::ListNotFound),
            Some(s) => s.copy(),
        };
        set.insert_all(&admins);
        let v = set.to_vec();
        self.list_admins_by_list_id.insert(list_id, set);
        Ok(v)
    }

    /// Removes admins from a list (owner only); returns the admins.
    pub fn owner_remove_admins(&mut self, ctx: &CallContext, list_id: ListId, admins: Vec<String>) -> (r: Result<Vec<String>, ListError>)
        requires
            old(self).wf(),
        ensures
            final(self).wf(),
            r is Err ==> *final(self) == *old(self),
            old(self).spec_list_owner_check(*ctx, list_id) is Err ==> r == Err::<Vec<String>, ListError>(old(self).spec_list_owner_check(*ctx, list_id)->Err_0),
            old(self).spec_list_owner_check(*ctx, list_id) is Ok ==> {
                &&& (r is Ok <==> old(self).list_admins_by_list_id@.contains_key(list_id))
                &&& r matches Ok(v) ==> {
                    &&& forall|a: Seq<char>| #[trigger] final(self).list_admins_by_list_id@[list_id]@.contains(a) <==> (
                        old(self).list_admins_by_list_id@[list_id]@.contains(a) && !admins@.map_values(|s: String| s@).contains(a))
                    &&& v@.map_values(|s: String| s@) == final(self).list_admins_by_list_id@[list_id]@
                }
            },
    {
        self.assert_list_owner(ctx, list_id)?;
        let mut set = match self.list_admins_by_list_id.get(list_id) {
            None => return Err(ListError::ListNotFound),
            Some(s) => s.copy(),
        };
        set.remove_all(&admins);
        let v = set.to_vec();
        self.list_admins_by_list_id.insert(list_id, set);
        Ok(v)
    }

    /// Removes every admin of a list (owner only); returns the former admins.
    pub fn owner_clear_admins(&mut self, ctx: &CallContext, list_id: ListId) -> (r: Result<Vec<String>, ListError>)
        requires
            old(self).wf(),
        ensures
            final(self).wf(),
            r is Err ==> *final(self) == *old(self),
            old(self).spec_list_owner_check(*ctx, list_id) is Err ==> r == Err::<Vec<String>, ListError>(old(self).spec_list_owner_check(*ctx, list_id)->Err_0),
            old(self).spec_list_owner_check(*ctx, list_id) is Ok ==> {
                &&& (r is Ok <==> old(self).list_admins_by_list_id@.contains_key(list_id))
                &&& r matches Ok(v) ==> {
                    &&& final(self).list_admins_by_list_id@[list_id]@.len() == 0
                    &&& v@.map_values(|s: String| s@) == old(self).list_admins_by_list_id@[list_id]@
                }
            },
    {
        self.assert_list_owner(ctx, list_id)?;
        let v = match self.list_admins_by_list_id.get(list_id) {
            None => return Err(ListError::ListNotFound),
            Some(s) => s.to_vec(),
        };
        self.list_admins_by_list_id.insert(list_id, AccountSet::new());
        Ok(v)
    }
}

/// An upvote withdrawn is undone: when an account that had not upvoted a list
/// upvotes it (`upvote` appends it) and then withdraws (`remove_upvote` keeps
/// every other account), the list has the upvoters it had before.
pub proof fn lemma_upvote_withdrawn(before: Seq<Seq<char>>, upvoted: Seq<Seq<char>>, withdrawn: Seq<Seq<char>>, account: Seq<char>)
    requires
        !before.contains(account),
        upvoted == before.push(account),
        forall|a: Seq<char>| #[trigger] withdrawn.contains(a) <==> (upvoted.contains(a) && a != account),
    ensures
        forall|a: Seq<char>| #[trigger] withdrawn.contains(a) <==> before.contains(a),
{
    assert forall|a: Seq<char>| #[trigger] withdrawn.contains(a) <==> before.contains(a) by {
        if before.contains(a) {
            let i = choose|i: int| 0 <= i < before.len() && before[i] == a;
            assert(upvoted[i] == a);
        }
        if upvoted.contains(a) && a != account {
            let i = choose|i: int| 0 <= i < upvoted.len() && upvoted[i] == a;
            assert(i < before.len());
            assert(before[i] == a);
        }
    }
}

} // verus!
