//! Registrations on lists: registering (alone or in admin batches),
//! unregistering, review updates, views, and deleting a list with its
//! registrations.
use vstd::prelude::*;
use crate::campaigns::contract::account_ids;
use crate::collections::{lemma_set_add_then_del, lemma_set_add_contains, lemma_set_del_contains, account_sets_add, account_sets_del, account_sets_wf, id_sets_add, id_sets_del, id_sets_wf, set_add, set_del, IdSet};
use crate::env::CallContext;
use crate::lists::contract::Contract;
use crate::lists::types::{
    format_registration, spec_format_registration, ListError, ListId, ListInternal, RegistrationExternal,
    RegistrationId, RegistrationInput, RegistrationInternal, RegistrationStatus,
};
use crate::lists::validation::MAX_REGISTRATION_BATCH_SIZE;
use crate::util::{clone_opt_string, unwrap_or};

verus! {

/// The account a registration is for: the given one when an admin
/// registers someone, the caller otherwise.
pub open spec fn spec_registrant(ctx: CallContext, is_admin: bool, registrant_id: Option<String>) -> String {
    if is_admin && registrant_id is Some { registrant_id->0 } else { ctx.predecessor }
}

/// The registration that `register` records. An admin's registration takes
/// the given status (approved by default) and times (now by default), keeps
/// the notes as admin notes and records the admin; a self-registration
/// takes the list's default status, the current time and the notes as
/// registrant notes.
pub open spec fn spec_new_registration(
    ctx: CallContext,
    list_id: ListId,
    list: ListInternal,
    is_admin: bool,
    notes: Option<String>,
    registrant_id: Option<String>,
    submitted_ms: Option<u64>,
    updated_ms: Option<u64>,
    status: Option<RegistrationStatus>,
) -> RegistrationInternal {
    let now = ctx.block_timestamp_ms;
    RegistrationInternal {
        registrant_id: spec_registrant(ctx, is_admin, registrant_id),
        list_id,
        status: if is_admin { unwrap_or(status, RegistrationStatus::Approved) } else { list.default_registration_status },
        submitted_ms: if is_admin { unwrap_or(submitted_ms, now) } else { now },
        updated_ms: if is_admin { unwrap_or(updated_ms, now) } else { now },
        admin_notes: if is_admin { notes } else { None },
        registrant_notes: if is_admin { None } else { notes },
        registered_by: if is_admin { Some(ctx.predecessor) } else { None },
    }
}

/// Registration `id` is stored, on list `list_id`, with status `status`.
pub open spec fn spec_reg_matches(m: Map<RegistrationId, RegistrationInternal>, id: RegistrationId, list_id: ListId, status: RegistrationStatus) -> bool {
    m.contains_key(id) && m[id].list_id == list_id && m[id].status == status
}

/// The account of entry `i` of a batch.
pub open spec fn spec_who(ctx: CallContext, is_admin: bool, inputs: Seq<RegistrationInput>, i: int) -> Seq<char> {
    spec_registrant(ctx, is_admin, Some(inputs[i].registrant_id))@
}

impl Contract {
    /// Why `register` refuses, if it does.
    pub open spec fn spec_register_check(&self, ctx: CallContext, list_id: ListId, registrant_id: Option<String>) -> Result<(), ListError> {
        match self.spec_is_list_admin(ctx.predecessor@, list_id) {
            None => Err(ListError::ListNotFound),
            Some(is_admin) => {
                let registrant = spec_registrant(ctx, is_admin, registrant_id);
                if account_ids(self.list_ids_by_registrant@, registrant@).contains(list_id) {
                    Err(ListError::AlreadyRegistered)
                } else if self.next_registration_id == u64::MAX {
                    Err(ListError::ArithmeticOverflow)
                } else if !self.registration_ids_by_list_id@.contains_key(list_id) {
                    Err(ListError::ListNotFound)
                } else {
                    Ok(())
                }
            },
        }
    }

    /// What a successful `register` of `reg` under ID `id` does from `self` to `n`.
    pub open spec fn spec_registered(&self, n: Contract, list_id: ListId, id: RegistrationId, reg: RegistrationInternal) -> bool {
        let who = reg.registrant_id@;
        &&& n.next_registration_id == id + 1
        &&& n.registrations_by_id@ == self.registrations_by_id@.insert(id, reg)
        &&& n.list_ids_by_registrant@[who]@ == set_add(account_ids(self.list_ids_by_registrant@, who), list_id)
        &&& n.list_ids_by_registrant@.dom() == self.list_ids_by_registrant@.dom().insert(who)
        &&& forall|k: Seq<char>| k != who && #[trigger] self.list_ids_by_registrant@.contains_key(k) ==> n.list_ids_by_registrant@[k] == self.list_ids_by_registrant@[k]
        &&& n.registration_ids_by_list_id@.dom() == self.registration_ids_by_list_id@.dom()
        &&& n.registration_ids_by_list_id@[list_id]@ == set_add(self.registration_ids_by_list_id@[list_id]@, id)
        &&& forall|k: ListId| k != list_id && #[trigger] self.registration_ids_by_list_id@.contains_key(k) ==> n.registration_ids_by_list_id@[k] == self.registration_ids_by_list_id@[k]
        &&& n.registration_ids_by_registrant_id@[who]@ == set_add(account_ids(self.registration_ids_by_registrant_id@, who), id)
        &&& n.registration_ids_by_registrant_id@.dom() == self.registration_ids_by_registrant_id@.dom().insert(who)
        &&& forall|k: Seq<char>| k != who && #[trigger] self.registration_ids_by_registrant_id@.contains_key(k) ==> n.registration_ids_by_registrant_id@[k] == self.registration_ids_by_registrant_id@[k]
        &&& n.lists_by_id == self.lists_by_id
        &&& n.list_admins_by_list_id == self.list_admins_by_list_id
        &&& n.upvotes_by_list_id == self.upvotes_by_list_id
        &&& n.list_ids_by_owner == self.list_ids_by_owner
        &&& n.next_list_id == self.next_list_id
    }

    /// Registers an account on list `list_id` (whose stored record is `list`) under
    /// the next registration ID (see `spec_new_registration`). An account is
    /// registered at most once per list. Refused, with nothing changed, as
    /// `spec_register_check` says.
    pub fn register(
        &mut self,
        ctx: &CallContext,
        list_id: ListId,
        list: &ListInternal,
        notes: Option<String>,
        registrant_id: Option<String>,
        submitted_ms: Option<u64>,
        updated_ms: Option<u64>,
        status: Option<RegistrationStatus>,
    ) -> (r: Result<RegistrationExternal, ListError>)
        requires
            old(self).wf(),
            old(self).lists_by_id@.contains_key(list_id) ==> *list == old(self).lists_by_id@[list_id],
        ensures
            final(self).wf(),
            r is Err ==> *final(self) == *old(self),
            r matches Err(e) ==> old(self).spec_register_check(*ctx, list_id, registrant_id) == Err::<(), ListError>(e),
            r is Ok ==> old(self).spec_register_check(*ctx, list_id, registrant_id) is Ok,
            r matches Ok(ext) ==> {
                let is_admin = old(self).spec_is_list_admin(ctx.predecessor@, list_id)->0;
                let reg = spec_new_registration(*ctx, list_id, *list, is_admin, notes, registrant_id, submitted_ms, updated_ms, status);
                let id = old(self).next_registration_id;
                &&& ext == spec_format_registration(id, reg)
                &&& old(self).spec_registered(*final(self), list_id, id, reg)
            },
    {
        let is_admin = self.is_caller_list_admin_or_greater(ctx, list_id)?;
        let registrant = if is_admin && registrant_id.is_some() {
            match registrant_id {
                Some(r) => r,
                None => ctx.predecessor.clone(),
            }
        } else {
            ctx.predecessor.clone()
        };
        let already = match self.list_ids_by_registrant.get(&registrant) {
            Some(s) => s.contains(list_id),
            None => false,
        };
        if already {
            return Err(ListError::AlreadyRegistered);
        }
        if self.next_registration_id == u64::MAX {
            return Err(ListError::ArithmeticOverflow);
        }
        if !self.registration_ids_by_list_id.contains_key(list_id) {
            return Err(ListError::ListNotFound);
        }
        let now = ctx.block_timestamp_ms;
        let registration = RegistrationInternal {
            registrant_id: registrant.clone(),
            list_id,
            status: if is_admin {
                match status { Some(s) => s, None => RegistrationStatus::Approved }
            } else {
                list.default_registration_status
            },
            submitted_ms: if is_admin { match submitted_ms { Some(t) => t, None => now } } else { now },
            updated_ms: if is_admin { match updated_ms { Some(t) => t, None => now } } else { now },
            admin_notes: if is_admin { clone_opt_string(&notes) } else { None },
            registrant_notes: if is_admin { None } else { clone_opt_string(&notes) },
            registered_by: if is_admin { Some(ctx.predecessor.clone()) } else { None },
        };
        account_sets_add(&mut self.list_ids_by_registrant, &registrant, list_id);
        let registration_id = self.next_registration_id;
        self.next_registration_id = self.next_registration_id + 1;
        self.registrations_by_id.insert(registration_id, registration.copy());
        id_sets_add(&mut self.registration_ids_by_list_id, list_id, registration_id);
        account_sets_add(&mut self.registration_ids_by_registrant_id, &registrant, registration_id);
        Ok(format_registration(registration_id, registration))
    }

    /// The entries of a batch: an admin's own inputs, or the caller's
    /// self-registration with the list's default status.
    pub open spec fn spec_batch_inputs(
        ctx: CallContext,
        list: ListInternal,
        is_admin: bool,
        notes: Option<String>,
        registrations: Option<Vec<RegistrationInput>>,
    ) -> Seq<RegistrationInput> {
        if is_admin {
            registrations->0@
        } else {
            seq![RegistrationInput {
                registrant_id: ctx.predecessor,
                status: list.default_registration_status,
                submitted_ms: None,
                updated_ms: None,
                notes,
            }]
        }
    }

    /// Why `register_batch` refuses, if it does: the list must exist, an
    /// admin must give the registrations, a batch holds at most
    /// `MAX_REGISTRATION_BATCH_SIZE` entries, no entry's account may already
    /// be on the list or come twice, and the IDs must not overflow.
    pub open spec fn spec_batch_check(
        &self,
        ctx: CallContext,
        list_id: ListId,
        notes: Option<String>,
        registrations: Option<Vec<RegistrationInput>>,
    ) -> Result<(), ListError> {
        match self.spec_is_list_admin(ctx.predecessor@, list_id) {
            None => Err(ListError::ListNotFound),
            Some(is_admin) => {
                if is_admin && registrations is None {
                    Err(ListError::RegistrationsRequired)
                } else {
                    let inputs = Self::spec_batch_inputs(ctx, self.lists_by_id@[list_id], is_admin, notes, registrations);
                    if inputs.len() > MAX_REGISTRATION_BATCH_SIZE {
                        Err(ListError::BatchTooLarge)
                    } else if exists|i: int, j: int| 0 <= i < j < inputs.len() && #[trigger] spec_who(ctx, is_admin, inputs, i) == #[trigger] spec_who(ctx, is_admin, inputs, j) {
                        Err(ListError::AlreadyRegistered)
                    } else if exists|i: int| 0 <= i < inputs.len() && account_ids(self.list_ids_by_registrant@, #[trigger] spec_who(ctx, is_admin, inputs, i)).contains(list_id) {
                        Err(ListError::AlreadyRegistered)
                    } else if self.next_registration_id + inputs.len() >= u64::MAX {
                        Err(ListError::ArithmeticOverflow)
                    } else if !self.registration_ids_by_list_id@.contains_key(list_id) {
                        Err(ListError::ListNotFound)
                    } else {
                        Ok(())
                    }
                }
            },
        }
    }

    /// Registers a batch on list `list_id`: an admin registers the accounts
    /// of `registrations` with their statuses, times and notes; anyone else
    /// registers itself with `notes`. Refused as a whole, with nothing
    /// changed, as `spec_batch_check` says. Entry `i` gets registration ID
    /// `next_registration_id + i`.
    #[verifier::loop_isolation(false)]
    pub fn register_batch(
        &mut self,
        ctx: &CallContext,
        list_id: ListId,
        notes: Option<String>,
        registrations: Option<Vec<RegistrationInput>>,
    ) -> (r: Result<Vec<RegistrationExternal>, ListError>)
        requires
            old(self).wf(),
        ensures
            final(self).wf(),
            r is Err ==> *final(self) == *old(self),
            r matches Err(e) ==> old(self).spec_batch_check(*ctx, list_id, notes, registrations) == Err::<(), ListError>(e),
            r is Ok ==> old(self).spec_batch_check(*ctx, list_id, notes, registrations) is Ok,
            r matches Ok(v) ==> {
                let is_admin = old(self).spec_is_list_admin(ctx.predecessor@, list_id)->0;
                let list = old(self).lists_by_id@[list_id];
                let inputs = Self::spec_batch_inputs(*ctx, list, is_admin, notes, registrations);
                let next = old(self).next_registration_id;
                &&& v@.len() == inputs.len()
                &&& final(self).next_registration_id == next + inputs.len()
                &&& forall|i: int| 0 <= i < inputs.len() ==> {
                    let reg = spec_new_registration(*ctx, list_id, list, is_admin, (#[trigger] inputs[i]).notes,
                        Some(inputs[i].registrant_id), inputs[i].submitted_ms, inputs[i].updated_ms, Some(inputs[i].status));
                    &&& final(self).registrations_by_id@[(next + i) as u64] == reg
                    &&& v@[i] == spec_format_registration((next + i) as u64, reg)
                }
                &&& forall|k: u64| #[trigger] final(self).registrations_by_id@.contains_key(k) <==> (
                    old(self).registrations_by_id@.contains_key(k) || (next <= k < next + inputs.len()))
                &&& forall|i: int| 0 <= i < inputs.len() ==> {
                    let who = #[trigger] spec_who(*ctx, is_admin, inputs, i);
                    &&& account_ids(final(self).list_ids_by_registrant@, who).contains(list_id)
                    &&& account_ids(final(self).registration_ids_by_registrant_id@, who).contains((next + i) as u64)
                }
                &&& forall|id: u64| next <= id < next + inputs.len() ==> #[trigger] final(self).registration_ids_by_list_id@[list_id]@.contains(id)
                &&& final(self).lists_by_id == old(self).lists_by_id
                &&& final(self).list_admins_by_list_id == old(self).list_admins_by_list_id
                &&& final(self).upvotes_by_list_id == old(self).upvotes_by_list_id
                &&& final(self).list_ids_by_owner == old(self).list_ids_by_owner
                &&& final(self).next_list_id == old(self).next_list_id
            },
    {
        let list = match self.lists_by_id.get(list_id) {
            None => return Err(ListError::ListNotFound),
            Some(l) => l.copy(),
        };
        let is_admin = self.is_caller_list_admin_or_greater(ctx, list_id)?;
        let inputs: Vec<RegistrationInput> = if is_admin {
            match registrations {
                None => return Err(ListError::RegistrationsRequired),
                Some(v) => v,
            }
        } else {
            let mut v: Vec<RegistrationInput> = Vec::new();
            v.push(RegistrationInput {
                registrant_id: ctx.predecessor.clone(),
                status: list.default_registration_status,
                submitted_ms: None,
                updated_ms: None,
                notes,
            });
            v
        };
        let ghost spec_inputs = Self::spec_batch_inputs(*ctx, list, is_admin, notes, registrations);
        assert(inputs@ =~= spec_inputs);
        if inputs.len() > MAX_REGISTRATION_BATCH_SIZE as usize {
            return Err(ListError::BatchTooLarge);
        }
        let mut whos: Vec<String> = Vec::new();
        let mut i: usize = 0;
        while i < inputs.len()
            invariant
                i <= inputs@.len(),
                inputs@ == spec_inputs,
                whos@.len() == i,
                forall|k: int| 0 <= k < i ==> (#[trigger] whos@[k])@ == spec_who(*ctx, is_admin, spec_inputs, k),
                forall|a: int, b: int| 0 <= a < b < i ==> #[trigger] spec_who(*ctx, is_admin, spec_inputs, a) != #[trigger] spec_who(*ctx, is_admin, spec_inputs, b),
            decreases inputs@.len() - i,
        {
            let w = if is_admin { inputs[i].registrant_id.clone() } else { ctx.predecessor.clone() };
            assert(w@ == spec_who(*ctx, is_admin, spec_inputs, i as int));
            let mut j: usize = 0;
            while j < i
                invariant
                    j <= i,
                    whos@.len() == i,
                    w@ == spec_who(*ctx, is_admin, spec_inputs, i as int),
                    forall|k: int| 0 <= k < i ==> (#[trigger] whos@[k])@ == spec_who(*ctx, is_admin, spec_inputs, k),
                    forall|k: int| 0 <= k < j ==> #[trigger] spec_who(*ctx, is_admin, spec_inputs, k) != spec_who(*ctx, is_admin, spec_inputs, i as int),
                decreases i - j,
            {
                if whos[j] == w {
                    assert(spec_who(*ctx, is_admin, spec_inputs, j as int) == spec_who(*ctx, is_admin, spec_inputs, i as int));
                    return Err(ListError::AlreadyRegistered);
                }
                j += 1;
            }
            whos.push(w);
            i += 1;
        }
        let mut i: usize = 0;
        while i < inputs.len()
            invariant
                self.wf(),
                i <= inputs@.len(),
                inputs@ == spec_inputs,
                whos@.len() == inputs@.len(),
                forall|k: int| 0 <= k < inputs@.len() ==> (#[trigger] whos@[k])@ == spec_who(*ctx, is_admin, spec_inputs, k),
                forall|k: int| 0 <= k < i ==> !account_ids(self.list_ids_by_registrant@, #[trigger] spec_who(*ctx, is_admin, spec_inputs, k)).contains(list_id),
            decreases inputs@.len() - i,
        {
            let already = match self.list_ids_by_registrant.get(&whos[i]) {
                Some(s) => s.contains(list_id),
                None => false,
            };
            if already {
                assert(account_ids(self.list_ids_by_registrant@, spec_who(*ctx, is_admin, spec_inputs, i as int)).contains(list_id));
                return Err(ListError::AlreadyRegistered);
            }
            i += 1;
        }
        if self.next_registration_id as u128 + inputs.len() as u128 >= u64::MAX as u128 {
            return Err(ListError::ArithmeticOverflow);
        }
        if !self.registration_ids_by_list_id.contains_key(list_id) {
            return Err(ListError::ListNotFound);
        }
        let ghost s0 = *self;
        let mut out: Vec<RegistrationExternal> = Vec::new();
        let mut i: usize = 0;
        while i < inputs.len()
            invariant
                self.wf(),
                i <= inputs@.len(),
                inputs@ == spec_inputs,
                out@.len() == i,
                self.next_registration_id == s0.next_registration_id + i,
                s0.next_registration_id + inputs@.len() < u64::MAX,
                self.lists_by_id == s0.lists_by_id,
                self.list_admins_by_list_id == s0.list_admins_by_list_id,
                self.upvotes_by_list_id == s0.upvotes_by_list_id,
                self.list_ids_by_owner == s0.list_ids_by_owner,
                self.next_list_id == s0.next_list_id,
                self.registration_ids_by_list_id@.contains_key(list_id),
                forall|k: int| 0 <= k < i ==> {
                    let who = #[trigger] spec_who(*ctx, is_admin, spec_inputs, k);
                    &&& account_ids(self.list_ids_by_registrant@, who).contains(list_id)
                    &&& account_ids(self.registration_ids_by_registrant_id@, who).contains((s0.next_registration_id + k) as u64)
                },
                forall|id: u64| s0.next_registration_id <= id < s0.next_registration_id + i ==> #[trigger] self.registration_ids_by_list_id@[list_id]@.contains(id),
                s0.spec_is_list_admin(ctx.predecessor@, list_id) == Some(is_admin),
                forall|a: int, b: int| 0 <= a < b < inputs@.len() ==> #[trigger] spec_who(*ctx, is_admin, spec_inputs, a) != #[trigger] spec_who(*ctx, is_admin, spec_inputs, b),
                forall|k: int| i <= k < inputs@.len() ==> !account_ids(self.list_ids_by_registrant@, #[trigger] spec_who(*ctx, is_admin, spec_inputs, k)).contains(list_id),
                forall|k: int| 0 <= k < i ==> {
                    let reg = spec_new_registration(*ctx, list_id, list, is_admin, (#[trigger] spec_inputs[k]).notes,
                        Some(spec_inputs[k].registrant_id), spec_inputs[k].submitted_ms, spec_inputs[k].updated_ms, Some(spec_inputs[k].status));
                    &&& self.registrations_by_id@[(s0.next_registration_id + k) as u64] == reg
                    &&& out@[k] == spec_format_registration((s0.next_registration_id + k) as u64, reg)
                },
                forall|k: u64| #[trigger] self.registrations_by_id@.contains_key(k) <==> (
                    s0.registrations_by_id@.contains_key(k) || (s0.next_registration_id <= k < s0.next_registration_id + i)),
            decreases inputs@.len() - i,
        {
            let x = &inputs[i];
            let ghost before = *self;
            assert(self.spec_is_list_admin(ctx.predecessor@, list_id) == Some(is_admin));
            assert(spec_registrant(*ctx, is_admin, Some(x.registrant_id))@ == spec_who(*ctx, is_admin, spec_inputs, i as int));
            assert(!account_ids(self.list_ids_by_registrant@, spec_who(*ctx, is_admin, spec_inputs, i as int)).contains(list_id));
            assert(self.next_registration_id != u64::MAX);
            assert(self.spec_register_check(*ctx, list_id, Some(x.registrant_id)) is Ok);
            let res = self.register(ctx, list_id, &list, clone_opt_string(&x.notes), Some(x.registrant_id.clone()),
                x.submitted_ms, x.updated_ms, Some(x.status));
            match res {
                Ok(e) => out.push(e),
                Err(e) => {
                    assert(false);
                    return Err(e);
                },
            }
            proof {
                assert forall|k: int| i + 1 <= k < inputs@.len() implies !account_ids(self.list_ids_by_registrant@, #[trigger] spec_who(*ctx, is_admin, spec_inputs, k)).contains(list_id) by {
                    assert(spec_who(*ctx, is_admin, spec_inputs, i as int) != spec_who(*ctx, is_admin, spec_inputs, k));
                }
                let wi = spec_who(*ctx, is_admin, spec_inputs, i as int);
                let id = (s0.next_registration_id + i) as u64;
                lemma_set_add_contains(account_ids(before.list_ids_by_registrant@, wi), list_id);
                lemma_set_add_contains(account_ids(before.registration_ids_by_registrant_id@, wi), id);
                lemma_set_add_contains(before.registration_ids_by_list_id@[list_id]@, id);
                assert forall|k: int| 0 <= k < i + 1 implies {
                    let who = #[trigger] spec_who(*ctx, is_admin, spec_inputs, k);
                    &&& account_ids(self.list_ids_by_registrant@, who).contains(list_id)
                    &&& account_ids(self.registration_ids_by_registrant_id@, who).contains((s0.next_registration_id + k) as u64)
                } by {
                    let who = spec_who(*ctx, is_admin, spec_inputs, k);
                    let kid = (s0.next_registration_id + k) as u64;
                    if k < i {
                        assert(who != wi);
                        assert(account_ids(before.list_ids_by_registrant@, who).contains(list_id));
                        assert(before.list_ids_by_registrant@.contains_key(who));
                        assert(self.list_ids_by_registrant@[who] == before.list_ids_by_registrant@[who]);
                        assert(self.list_ids_by_registrant@.contains_key(who));
                        assert(account_ids(before.registration_ids_by_registrant_id@, who).contains(kid));
                        assert(before.registration_ids_by_registrant_id@.contains_key(who));
                        assert(self.registration_ids_by_registrant_id@[who] == before.registration_ids_by_registrant_id@[who]);
                        assert(account_ids(self.registration_ids_by_registrant_id@, who).contains(kid));
                        assert(account_ids(self.list_ids_by_registrant@, who).contains(list_id));
                    } else {
                        assert(who == wi);
                        assert(self.list_ids_by_registrant@.contains_key(wi));
                        assert(self.list_ids_by_registrant@[wi]@ == set_add(account_ids(before.list_ids_by_registrant@, wi), list_id));
                        assert(self.registration_ids_by_registrant_id@.contains_key(wi));
                        assert(self.registration_ids_by_registrant_id@[wi]@ == set_add(account_ids(before.registration_ids_by_registrant_id@, wi), id));
                        assert(account_ids(self.registration_ids_by_registrant_id@, who).contains(kid));
                        assert(account_ids(self.list_ids_by_registrant@, who).contains(list_id));
                    }
                }
            }
            assert forall|k: u64| s0.next_registration_id <= k < s0.next_registration_id + i + 1
                implies #[trigger] self.registration_ids_by_list_id@[list_id]@.contains(k) by {
                assert(self.registration_ids_by_list_id@[list_id]@ == set_add(before.registration_ids_by_list_id@[list_id]@, (s0.next_registration_id + i) as u64));
                lemma_set_add_contains(before.registration_ids_by_list_id@[list_id]@, (s0.next_registration_id + i) as u64);
                if k < s0.next_registration_id + i {
                    assert(before.registration_ids_by_list_id@[list_id]@.contains(k));
                }
            }
            i += 1;
        }
        Ok(out)
    }
}

impl Contract {
    /// What a successful `unregister_by_registration_id` of `registration_id`
    /// does from `self` to `n`: the record is removed and its ID leaves the
    /// ID sets of its list and of its registrant; nothing else changes.
    pub open spec fn spec_unregistered(&self, n: Contract, registration_id: RegistrationId) -> bool {
        let reg = self.registrations_by_id@[registration_id];
        &&& n.registrations_by_id@ == self.registrations_by_id@.remove(registration_id)
        &&& n.registration_ids_by_list_id@[reg.list_id]@ == set_del(self.registration_ids_by_list_id@[reg.list_id]@, registration_id)
        &&& n.registration_ids_by_registrant_id@[reg.registrant_id@]@ == set_del(self.registration_ids_by_registrant_id@[reg.registrant_id@]@, registration_id)
        &&& n.registration_ids_by_list_id@.dom() == self.registration_ids_by_list_id@.dom()
        &&& forall|k: ListId| k != reg.list_id && #[trigger] self.registration_ids_by_list_id@.contains_key(k)
            ==> n.registration_ids_by_list_id@[k] == self.registration_ids_by_list_id@[k]
        &&& n.registration_ids_by_registrant_id@.dom() == self.registration_ids_by_registrant_id@.dom()
        &&& forall|k: Seq<char>| k != reg.registrant_id@ && #[trigger] self.registration_ids_by_registrant_id@.contains_key(k)
            ==> n.registration_ids_by_registrant_id@[k] == self.registration_ids_by_registrant_id@[k]
        &&& n == (Contract {
            registrations_by_id: n.registrations_by_id,
            registration_ids_by_list_id: n.registration_ids_by_list_id,
            registration_ids_by_registrant_id: n.registration_ids_by_registrant_id,
            ..*self
        })
    }

    /// Why `unregister_by_registration_id` refuses, if it does.
    pub open spec fn spec_unregister_check(&self, ctx: CallContext, registration_id: RegistrationId) -> Result<(), ListError> {
        if !self.registrations_by_id@.contains_key(registration_id) {
            Err(ListError::RegistrationNotFound)
        } else {
            let reg = self.registrations_by_id@[registration_id];
            match self.spec_is_list_admin(ctx.predecessor@, reg.list_id) {
                None => Err(ListError::ListNotFound),
                Some(is_admin) => {
                    if !(reg.registrant_id@ == ctx.predecessor@ || is_admin) {
                        Err(ListError::NotAllowed)
                    } else if !is_admin && reg.status != RegistrationStatus::Pending {
                        Err(ListError::NotPending)
                    } else if !self.registration_ids_by_list_id@.contains_key(reg.list_id) {
                        Err(ListError::ListNotFound)
                    } else if !self.registration_ids_by_registrant_id@.contains_key(reg.registrant_id@) {
                        Err(ListError::RegistrationNotFound)
                    } else {
                        Ok(())
                    }
                },
            }
        }
    }

    /// Removes a registration (by its registrant while it is pending, or by
    /// an admin or the owner of its list at any time). Returns the account
    /// that paid for its storage (who registered it), which the freed
    /// storage is refunded to. The registrant's index of lists
    /// (`list_ids_by_registrant`) is left as it is: the list stays in it.
    /// Refused, with nothing changed, as `spec_unregister_check` says.
    pub fn unregister_by_registration_id(&mut self, ctx: &CallContext, registration_id: RegistrationId) -> (r: Result<String, ListError>)
        requires
            old(self).wf(),
        ensures
            final(self).wf(),
            r is Err ==> *final(self) == *old(self),
            r matches Err(e) ==> old(self).spec_unregister_check(*ctx, registration_id) == Err::<(), ListError>(e),
            r is Ok ==> old(self).spec_unregister_check(*ctx, registration_id) is Ok,
            r matches Ok(refund_to) ==> {
                let reg = old(self).registrations_by_id@[registration_id];
                &&& refund_to == (match reg.registered_by { Some(a) => a, None => reg.registrant_id })
                &&& old(self).spec_unregistered(*final(self), registration_id)
            },
    {
        let reg = match self.registrations_by_id.get(registration_id) {
            None => return Err(ListError::RegistrationNotFound),
            Some(r) => r.copy(),
        };
        let is_admin = self.is_caller_list_admin_or_greater(ctx, reg.list_id)?;
        if !(reg.registrant_id == ctx.predecessor || is_admin) {
            return Err(ListError::NotAllowed);
        }
        if !is_admin && reg.status != RegistrationStatus::Pending {
            return Err(ListError::NotPending);
        }
        if !self.registration_ids_by_list_id.contains_key(reg.list_id) {
            return Err(ListError::ListNotFound);
        }
        if !self.registration_ids_by_registrant_id.contains_key(&reg.registrant_id) {
            return Err(ListError::RegistrationNotFound);
        }
        id_sets_del(&mut self.registration_ids_by_list_id, reg.list_id, registration_id);
        account_sets_del(&mut self.registration_ids_by_registrant_id, &reg.registrant_id, registration_id);
        self.registrations_by_id.remove(registration_id);
        let refund_to = match &reg.registered_by {
            Some(a) => a.clone(),
            None => reg.registrant_id.clone(),
        };
        Ok(refund_to)
    }

    /// Updates a registration: the status (by an admin or the owner of its
    /// list, when given), the notes (the admin's or the registrant's,
    /// depending on who calls, when given) and its update time.
    pub fn update_registration(&mut self, ctx: &CallContext, registration_id: RegistrationId, status: Option<RegistrationStatus>, notes: Option<String>) -> (r: Result<RegistrationExternal, ListError>)
        requires
            old(self).wf(),
        ensures
            final(self).wf(),
            r is Err ==> *final(self) == *old(self),
            !old(self).registrations_by_id@.contains_key(registration_id) ==> r == Err::<RegistrationExternal, ListError>(ListError::RegistrationNotFound),
            old(self).registrations_by_id@.contains_key(registration_id) ==> {
                let reg = old(self).registrations_by_id@[registration_id];
                match old(self).spec_is_list_admin(ctx.predecessor@, reg.list_id) {
                    None => r == Err::<RegistrationExternal, ListError>(ListError::ListNotFound),
                    Some(is_admin) => {
                        let updated = RegistrationInternal {
                            status: if is_admin && status is Some { status->0 } else { reg.status },
                            updated_ms: ctx.block_timestamp_ms,
                            admin_notes: if is_admin && notes is Some { notes } else { reg.admin_notes },
                            registrant_notes: if !is_admin && notes is Some { notes } else { reg.registrant_notes },
                            ..reg
                        };
                        &&& r == Ok::<RegistrationExternal, ListError>(spec_format_registration(registration_id, updated))
                        &&& final(self).registrations_by_id@ == old(self).registrations_by_id@.insert(registration_id, updated)
                        &&& final(self).lists_by_id == old(self).lists_by_id
                    },
                }
            },
    {
        let reg = match self.registrations_by_id.get(registration_id) {
            None => return Err(ListError::RegistrationNotFound),
            Some(r) => r.copy(),
        };
        let is_admin = self.is_caller_list_admin_or_greater(ctx, reg.list_id)?;
        let mut updated = reg;
        if is_admin && status.is_some() {
            match status { Some(s) => { updated.status = s; }, None => {} }
        }
        updated.updated_ms = ctx.block_timestamp_ms;
        if notes.is_some() {
            if is_admin {
                updated.admin_notes = notes;
            } else {
                updated.registrant_notes = notes;
            }
        }
        self.registrations_by_id.insert(registration_id, updated.copy());
        Ok(format_registration(registration_id, updated))
    }

    /// Registration `registration_id`.
    pub fn get_registration(&self, registration_id: RegistrationId) -> (r: Result<RegistrationExternal, ListError>)
        requires
            self.wf(),
        ensures
            self.registrations_by_id@.contains_key(registration_id) ==> r == Ok::<RegistrationExternal, ListError>(
                spec_format_registration(registration_id, self.registrations_by_id@[registration_id])),
            !self.registrations_by_id@.contains_key(registration_id) ==> r == Err::<RegistrationExternal, ListError>(ListError::RegistrationNotFound),
    {
        match self.registrations_by_id.get(registration_id) {
            None => Err(ListError::RegistrationNotFound),
            Some(reg) => Ok(format_registration(registration_id, reg.copy())),
        }
    }

    /// Whether `account_id` has a registration on `list_id` (list 1 when not
    /// given) with `required_status` (approved when not given). Its
    /// registrations are looked at in order; refused when one of them is
    /// missing before a match is found.
    #[verifier::loop_isolation(false)]
    pub fn is_registered(&self, list_id: Option<ListId>, account_id: String, required_status: Option<RegistrationStatus>) -> (r: Result<bool, ListError>)
        requires
            self.wf(),
        ensures
            ({
                let ids = account_ids(self.registration_ids_by_registrant_id@, account_id@);
                let lid = unwrap_or(list_id, 1);
                let st = unwrap_or(required_status, RegistrationStatus::Approved);
                let m = self.registrations_by_id@;
                &&& r == Ok::<bool, ListError>(true) <==> exists|j: int| 0 <= j < ids.len() && #[trigger] spec_reg_matches(m, ids[j], lid, st)
                    && forall|k: int| 0 <= k < j ==> m.contains_key(#[trigger] ids[k])
                &&& r is Err <==> exists|j: int| 0 <= j < ids.len() && !m.contains_key(#[trigger] ids[j])
                    && forall|k: int| 0 <= k < j ==> !#[trigger] spec_reg_matches(m, ids[k], lid, st)
                &&& r is Err ==> r == Err::<bool, ListError>(ListError::RegistrationNotFound)
            }),
    {
        let lid = match list_id { Some(l) => l, None => 1 };
        let st = match required_status { Some(s) => s, None => RegistrationStatus::Approved };
        let ids: Vec<u64> = match self.registration_ids_by_registrant_id.get(&account_id) {
            Some(set) => set.to_vec(),
            None => Vec::new(),
        };
        let ghost gids = account_ids(self.registration_ids_by_registrant_id@, account_id@);
        assert(ids@ =~= gids);
        let mut i: usize = 0;
        while i < ids.len()
            invariant
                self.wf(),
                i <= ids@.len(),
                ids@ == gids,
                forall|k: int| 0 <= k < i ==> self.registrations_by_id@.contains_key(#[trigger] gids[k]),
                forall|k: int| 0 <= k < i ==> !#[trigger] spec_reg_matches(self.registrations_by_id@, gids[k], lid, st),
            decreases ids@.len() - i,
        {
            match self.registrations_by_id.get(ids[i]) {
                None => {
                    assert(!self.registrations_by_id@.contains_key(gids[i as int]));
                    return Err(ListError::RegistrationNotFound);
                },
                Some(reg) => {
                    if reg.list_id == lid && reg.status == st {
                        let ghost m = self.registrations_by_id@;
                        assert(spec_reg_matches(m, gids[i as int], lid, st));
                        assert forall|j: int| 0 <= j < gids.len() && !m.contains_key(#[trigger] gids[j]) implies
                            !(forall|k: int| 0 <= k < j ==> !#[trigger] spec_reg_matches(m, gids[k], lid, st)) by {
                            assert(j > i);
                            assert(spec_reg_matches(m, gids[i as int], lid, st));
                        }
                        assert(forall|k: int| 0 <= k < i ==> m.contains_key(#[trigger] gids[k]));
                        assert(exists|j: int| 0 <= j < gids.len() && #[trigger] spec_reg_matches(m, gids[j], lid, st)
                            && forall|k: int| 0 <= k < j ==> m.contains_key(#[trigger] gids[k]));
                        assert(!(exists|j: int| 0 <= j < gids.len() && !m.contains_key(#[trigger] gids[j])
                            && forall|k: int| 0 <= k < j ==> !#[trigger] spec_reg_matches(m, gids[k], lid, st)));
                        assert(gids == account_ids(self.registration_ids_by_registrant_id@, account_id@));
                        assert(lid == unwrap_or(list_id, 1));
                        assert(st == unwrap_or(required_status, RegistrationStatus::Approved));
                        return Ok(true);
                    }
                },
            }
            assert(!spec_reg_matches(self.registrations_by_id@, gids[i as int], lid, st));
            i += 1;
        }
        Ok(false)
    }
}

/// Registrations after the IDs `ids` are removed.
pub open spec fn spec_remove_registrations(m: Map<RegistrationId, RegistrationInternal>, ids: Seq<u64>) -> Map<RegistrationId, RegistrationInternal>
    decreases ids.len(),
{
    if ids.len() == 0 {
        m
    } else {
        spec_remove_registrations(m, ids.drop_last()).remove(ids.last())
    }
}

impl Contract {
    /// Why `delete_list` refuses, if it does.
    pub open spec fn spec_delete_check(&self, ctx: CallContext, list_id: ListId) -> Result<(), ListError> {
        if self.spec_list_owner_check(ctx, list_id) is Err {
            self.spec_list_owner_check(ctx, list_id)
        } else if !self.list_ids_by_owner@.contains_key(ctx.predecessor@) {
            Err(ListError::ListNotFound)
        } else if self.registration_ids_by_list_id@.contains_key(list_id) && exists|j: int|
            0 <= j < self.registration_ids_by_list_id@[list_id]@.len()
            && (!self.registrations_by_id@.contains_key(#[trigger] self.registration_ids_by_list_id@[list_id]@[j])
                || !self.registration_ids_by_registrant_id@.contains_key(self.registrations_by_id@[self.registration_ids_by_list_id@[list_id]@[j]].registrant_id@)) {
            Err(ListError::RegistrationNotFound)
        } else {
            Ok(())
        }
    }

    /// Deletes a list (owner only) with its admins, upvotes and registrations
    /// (each registration is also taken off its registrant). Refused, with
    /// nothing changed, as `spec_delete_check` says.
    #[verifier::loop_isolation(false)]
    pub fn delete_list(&mut self, ctx: &CallContext, list_id: ListId) -> (r: Result<(), ListError>)
        requires
            old(self).wf(),
        ensures
            final(self).wf(),
            r is Err ==> *final(self) == *old(self),
            r matches Err(e) ==> old(self).spec_delete_check(*ctx, list_id) == Err::<(), ListError>(e),
            r is Ok ==> {
                let ids = account_ids_of(old(self).registration_ids_by_list_id@, list_id);
                &&& old(self).spec_delete_check(*ctx, list_id) is Ok
                &&& final(self).lists_by_id@ == old(self).lists_by_id@.remove(list_id)
                &&& final(self).list_ids_by_owner@[ctx.predecessor@]@ == set_del(old(self).list_ids_by_owner@[ctx.predecessor@]@, list_id)
                &&& final(self).list_admins_by_list_id@ == old(self).list_admins_by_list_id@.remove(list_id)
                &&& final(self).registration_ids_by_list_id@ == old(self).registration_ids_by_list_id@.remove(list_id)
                &&& final(self).upvotes_by_list_id@ == old(self).upvotes_by_list_id@.remove(list_id)
                &&& final(self).registrations_by_id@ == spec_remove_registrations(old(self).registrations_by_id@, ids)
                &&& final(self).registration_ids_by_registrant_id@.dom() == old(self).registration_ids_by_registrant_id@.dom()
                &&& final(self).list_ids_by_registrant == old(self).list_ids_by_registrant
                &&& final(self).refund_claims_by_registrant_id == old(self).refund_claims_by_registrant_id
                &&& final(self).next_list_id == old(self).next_list_id
                &&& final(self).next_registration_id == old(self).next_registration_id
                &&& forall|who: Seq<char>, id: u64| old(self).registration_ids_by_registrant_id@.contains_key(who) ==> (
                    #[trigger] final(self).registration_ids_by_registrant_id@[who]@.contains(id) <==> (
                        old(self).registration_ids_by_registrant_id@[who]@.contains(id)
                        && !(ids.contains(id) && old(self).registrations_by_id@[id].registrant_id@ == who)))
            },
    {
        self.assert_list_owner(ctx, list_id)?;
        if !self.list_ids_by_owner.contains_key(&ctx.predecessor) {
            return Err(ListError::ListNotFound);
        }
        let ids: Vec<u64> = match self.registration_ids_by_list_id.get(list_id) {
            Some(set) => set.to_vec(),
            None => Vec::new(),
        };
        let ghost gids = account_ids_of(self.registration_ids_by_list_id@, list_id);
        assert(ids@ =~= gids);
        assert(gids.no_duplicates());
        let mut i: usize = 0;
        while i < ids.len()
            invariant
                self.wf(),
                i <= ids@.len(),
                ids@ == gids,
                gids == account_ids_of(self.registration_ids_by_list_id@, list_id),
                forall|k: int| 0 <= k < i ==> self.registrations_by_id@.contains_key(#[trigger] gids[k])
                    && self.registration_ids_by_registrant_id@.contains_key(self.registrations_by_id@[gids[k]].registrant_id@),
            decreases ids@.len() - i,
        {
            let ok = match self.registrations_by_id.get(ids[i]) {
                None => false,
                Some(reg) => self.registration_ids_by_registrant_id.contains_key(&reg.registrant_id),
            };
            if !ok {
                proof {
                    assert(self.registration_ids_by_list_id@.contains_key(list_id));
                    assert(self.registration_ids_by_list_id@[list_id]@[i as int] == gids[i as int]);
                }
                return Err(ListError::RegistrationNotFound);
            }
            i += 1;
        }
        proof {
            if self.registration_ids_by_list_id@.contains_key(list_id) {
                let sq = self.registration_ids_by_list_id@[list_id]@;
                assert(sq == gids);
                assert forall|j: int| 0 <= j < sq.len() implies (self.registrations_by_id@.contains_key(#[trigger] sq[j])
                    && self.registration_ids_by_registrant_id@.contains_key(self.registrations_by_id@[sq[j]].registrant_id@)) by {
                    assert(sq[j] == gids[j]);
                }
            }
            assert(self.spec_delete_check(*ctx, list_id) is Ok);
        }
        let ghost s0 = *self;
        self.lists_by_id.remove(list_id);
        account_sets_del(&mut self.list_ids_by_owner, &ctx.predecessor, list_id);
        self.list_admins_by_list_id.remove(list_id);
        self.registration_ids_by_list_id.remove(list_id);
        let ghost s1 = *self;
        let mut i: usize = 0;
        while i < ids.len()
            invariant
                self.wf(),
                i <= ids@.len(),
                ids@ == gids,
                gids.no_duplicates(),
                self.list_ids_by_owner == s1.list_ids_by_owner,
                self.list_ids_by_registrant == s0.list_ids_by_registrant,
                self.refund_claims_by_registrant_id == s0.refund_claims_by_registrant_id,
                self.next_list_id == s0.next_list_id,
                self.next_registration_id == s0.next_registration_id,
                self.registrations_by_id@ == spec_remove_registrations(s0.registrations_by_id@, gids.subrange(0, i as int)),
                self.registration_ids_by_registrant_id@.dom() == s0.registration_ids_by_registrant_id@.dom(),
                forall|who: Seq<char>, id: u64| s0.registration_ids_by_registrant_id@.contains_key(who) ==> (
                    #[trigger] self.registration_ids_by_registrant_id@[who]@.contains(id) <==> (
                        s0.registration_ids_by_registrant_id@[who]@.contains(id)
                        && !(gids.subrange(0, i as int).contains(id) && s0.registrations_by_id@[id].registrant_id@ == who))),
                forall|k: int| 0 <= k < gids.len() ==> s0.registrations_by_id@.contains_key(#[trigger] gids[k])
                    && s0.registration_ids_by_registrant_id@.contains_key(s0.registrations_by_id@[gids[k]].registrant_id@),
                forall|k: int| i <= k < gids.len() ==> self.registrations_by_id@.contains_key(#[trigger] gids[k])
                    && self.registrations_by_id@[gids[k]] == s0.registrations_by_id@[gids[k]],
                self.lists_by_id@ == s0.lists_by_id@.remove(list_id),
                self.list_admins_by_list_id@ == s0.list_admins_by_list_id@.remove(list_id),
                self.registration_ids_by_list_id@ == s0.registration_ids_by_list_id@.remove(list_id),
                self.upvotes_by_list_id == s0.upvotes_by_list_id,
            decreases ids@.len() - i,
        {
            let id = ids[i];
            let reg = match self.registrations_by_id.get(id) {
                Some(r) => r.copy(),
                None => {
                    assert(false);
                    return Err(ListError::RegistrationNotFound);
                },
            };
            let ghost before = *self;
            self.registrations_by_id.remove(id);
            account_sets_del(&mut self.registration_ids_by_registrant_id, &reg.registrant_id, id);
            proof {
                assert(gids.subrange(0, i + 1).drop_last() =~= gids.subrange(0, i as int));
                crate::util::lemma_prefix_contains(gids, i as int);
                assert(reg == s0.registrations_by_id@[gids[i as int]]);
                let wi = reg.registrant_id@;
                assert(before.registration_ids_by_registrant_id@.contains_key(wi));
                lemma_set_del_contains(before.registration_ids_by_registrant_id@[wi]@, id);
                assert forall|who: Seq<char>, y: u64| s0.registration_ids_by_registrant_id@.contains_key(who) implies (
                    #[trigger] self.registration_ids_by_registrant_id@[who]@.contains(y) <==> (
                        s0.registration_ids_by_registrant_id@[who]@.contains(y)
                        && !(gids.subrange(0, i + 1).contains(y) && s0.registrations_by_id@[y].registrant_id@ == who))) by {
                    assert(before.registration_ids_by_registrant_id@.contains_key(who));
                    if who == wi {
                        assert(self.registration_ids_by_registrant_id@[who]@ == set_del(before.registration_ids_by_registrant_id@[who]@, id));
                    } else {
                        assert(self.registration_ids_by_registrant_id@[who] == before.registration_ids_by_registrant_id@[who]);
                    }
                    assert(before.registration_ids_by_registrant_id@[who]@.contains(y) <==> (
                        s0.registration_ids_by_registrant_id@[who]@.contains(y)
                        && !(gids.subrange(0, i as int).contains(y) && s0.registrations_by_id@[y].registrant_id@ == who)));
                }
                assert forall|k: int| i + 1 <= k < gids.len() implies self.registrations_by_id@.contains_key(#[trigger] gids[k])
                    && self.registrations_by_id@[gids[k]] == s0.registrations_by_id@[gids[k]] by {
                    assert(gids[k] != gids[i as int]);
                }
            }
            i += 1;
        }
        assert(gids.subrange(0, gids.len() as int) =~= gids);
        self.upvotes_by_list_id.remove(list_id);
        Ok(())
    }

    /// Removes the caller's registration: the one on `list_id` when given
    /// (if the caller has one there), otherwise registration
    /// `registration_id` when given (see `unregister_by_registration_id`).
    /// Returns the registration removed and the account its storage is refunded to.
    #[verifier::loop_isolation(false)]
    pub fn unregister(&mut self, ctx: &CallContext, list_id: Option<ListId>, registration_id: Option<RegistrationId>) -> (r: Result<Option<(RegistrationId, String)>, ListError>)
        requires
            old(self).wf(),
        ensures
            final(self).wf(),
            r is Err ==> *final(self) == *old(self),
            list_id is None && registration_id is None ==> r == Ok::<Option<(RegistrationId, String)>, ListError>(None) && *final(self) == *old(self),
            (list_id is None && registration_id is Some) ==> (r is Ok <==> old(self).spec_unregister_check(*ctx, registration_id->0) is Ok),
            (list_id is None && registration_id is Some && r is Ok) ==> (r->Ok_0 matches Some(p) && p.0 == registration_id->0),
            (list_id is Some && !old(self).registration_ids_by_list_id@.contains_key(list_id->0))
                ==> r == Err::<Option<(RegistrationId, String)>, ListError>(ListError::ListNotFound),
            (list_id is Some && old(self).registration_ids_by_list_id@.contains_key(list_id->0)) ==> ({
                let ids = old(self).registration_ids_by_list_id@[list_id->0]@;
                match spec_find_own(ids, old(self).registrations_by_id@, ctx.predecessor@, 0) {
                    None => r == Err::<Option<(RegistrationId, String)>, ListError>(ListError::RegistrationNotFound),
                    Some(None) => r == Ok::<Option<(RegistrationId, String)>, ListError>(None),
                    Some(Some(j)) => match old(self).spec_unregister_check(*ctx, ids[j]) {
                        Err(e) => r == Err::<Option<(RegistrationId, String)>, ListError>(e),
                        Ok(()) => r matches Ok(Some(p)) && p.0 == ids[j],
                    },
                }
            }),
            r matches Ok(Some(p)) ==> ({
                &&& old(self).spec_unregister_check(*ctx, p.0) is Ok
                &&& final(self).registrations_by_id@ == old(self).registrations_by_id@.remove(p.0)
                &&& list_id is Some ==> old(self).registrations_by_id@[p.0].registrant_id@ == ctx.predecessor@
            }),
            r matches Ok(None) ==> *final(self) == *old(self),
    {
        match list_id {
            Some(l) => {
                let ids = match self.registration_ids_by_list_id.get(l) {
                    None => return Err(ListError::ListNotFound),
                    Some(set) => set.to_vec(),
                };
                let mut i: usize = 0;
                let mut found: Option<u64> = None;
                while i < ids.len()
                    invariant
                        self.wf(),
                        i <= ids@.len(),
                        found matches Some(id) ==> self.registrations_by_id@.contains_key(id) && self.registrations_by_id@[id].registrant_id@ == ctx.predecessor@,
                        ids@ == self.registration_ids_by_list_id@[l]@,
                        self.registration_ids_by_list_id@.contains_key(l),
                        found is None ==> spec_find_own(ids@, self.registrations_by_id@, ctx.predecessor@, 0)
                            == spec_find_own(ids@, self.registrations_by_id@, ctx.predecessor@, i as int),
                        found matches Some(id) ==> (i < ids@.len() && ids@[i as int] == id
                            && spec_find_own(ids@, self.registrations_by_id@, ctx.predecessor@, 0) == Some(Some(i as int))),
                    decreases ids@.len() - i,
                {
                    let reg_owner_matches = match self.registrations_by_id.get(ids[i]) {
                        None => return Err(ListError::RegistrationNotFound),
                        Some(reg) => reg.registrant_id == ctx.predecessor,
                    };
                    if reg_owner_matches {
                        found = Some(ids[i]);
                        break;
                    }
                    i += 1;
                }
                match found {
                    None => Ok(None),
                    Some(id) => {
                        let refund_to = self.unregister_by_registration_id(ctx, id)?;
                        Ok(Some((id, refund_to)))
                    },
                }
            },
            None => match registration_id {
                None => Ok(None),
                Some(id) => {
                    let refund_to = self.unregister_by_registration_id(ctx, id)?;
                    Ok(Some((id, refund_to)))
                },
            },
        }
    }
}

/// The first registration of `ids` (from index `i` on) whose registrant is
/// `caller`: `Some(Some(j))` at index `j`, `Some(None)` when there is none,
/// `None` when an ID without a registration comes first.
pub open spec fn spec_find_own(ids: Seq<u64>, regs: Map<RegistrationId, RegistrationInternal>, caller: Seq<char>, i: int) -> Option<Option<int>>
    decreases ids.len() - i,
{
    if i < 0 || i >= ids.len() {
        Some(None)
    } else if !regs.contains_key(ids[i]) {
        None
    } else if regs[ids[i]].registrant_id@ == caller {
        Some(Some(i))
    } else {
        spec_find_own(ids, regs, caller, i + 1)
    }
}

/// The IDs stored under `k` (none when absent).
pub open spec fn account_ids_of(m: Map<u64, IdSet>, k: u64) -> Seq<u64> {
    if m.contains_key(k) { m[k]@ } else { Seq::empty() }
}

/// A registration withdrawn is undone: when an account registers on a list
/// under a fresh registration ID (`register`) and that registration is then
/// removed (`unregister_by_registration_id`), the records and the ID sets of
/// the list and of the registrant are as they were before.
pub proof fn lemma_registration_withdrawn(
    before: Contract,
    registered: Contract,
    withdrawn: Contract,
    list_id: ListId,
    id: RegistrationId,
    reg: RegistrationInternal,
)
    requires
        reg.list_id == list_id,
        !before.registrations_by_id@.contains_key(id),
        !before.registration_ids_by_list_id@[list_id]@.contains(id),
        !account_ids(before.registration_ids_by_registrant_id@, reg.registrant_id@).contains(id),
        before.spec_registered(registered, list_id, id, reg),
        registered.spec_unregistered(withdrawn, id),
    ensures
        withdrawn.registrations_by_id@ == before.registrations_by_id@,
        withdrawn.registration_ids_by_list_id@[list_id]@ == before.registration_ids_by_list_id@[list_id]@,
        withdrawn.registration_ids_by_registrant_id@[reg.registrant_id@]@
            == account_ids(before.registration_ids_by_registrant_id@, reg.registrant_id@),
        withdrawn.lists_by_id == before.lists_by_id,
        withdrawn.upvotes_by_list_id == before.upvotes_by_list_id,
{
    assert(registered.registrations_by_id@[id] == reg);
    assert(withdrawn.registrations_by_id@ =~= before.registrations_by_id@);
    lemma_set_add_then_del(before.registration_ids_by_list_id@[list_id]@, id);
    lemma_set_add_then_del(account_ids(before.registration_ids_by_registrant_id@, reg.registrant_id@), id);
}

} // verus!
