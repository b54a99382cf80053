//! Project applications: applying (after an optional registry check),
//! withdrawing, review by the chef, and views.
use vstd::prelude::*;
use crate::collections::AccountMap;
use crate::env::CallContext;
use crate::pot::contract::Contract;
use crate::pot::types::{Application, ApplicationStatus, PotError, ProjectId};
use crate::provider::{spec_is_split, PROVIDER_ID_DELIMITER};
use crate::text::spec_count;
use crate::util::{clone_opt_string, page, page_bounds};

verus! {

/// What an application call leads to.
pub enum ApplyAction {
    /// Ask the registry provider (`method_name` of `contract_id`) whether the
    /// project is registered; the answer goes to `assert_can_apply_callback`.
    QueryRegistry { contract_id: String, method_name: String, project_id: ProjectId, deposit: u128 },
    /// Go on with `handle_apply`.
    Apply { project_id: ProjectId, deposit: u128 },
}

/// The applications of `apps` whose status is `status` (all of them for `None`).
pub open spec fn spec_with_status(apps: Seq<Application>, status: Option<ApplicationStatus>) -> Seq<Application>
    decreases apps.len(),
{
    if apps.len() == 0 {
        Seq::empty()
    } else {
        let prev = spec_with_status(apps.drop_last(), status);
        match status {
            Some(st) => if apps.last().status == st { prev.push(apps.last()) } else { prev },
            None => prev.push(apps.last()),
        }
    }
}

/// The values of `m` in its iteration order.
pub open spec fn spec_app_values(m: AccountMap<Application>) -> Seq<Application> {
    m.order().map_values(|k: Seq<char>| m@[k])
}

impl Contract {
    /// Applying, by the calling project with the attached deposit: refused to
    /// the chef, admins and owner; with a registry provider set, the registry
    /// is asked first (refused when the provider ID cannot be decomposed).
    pub fn apply(&self, ctx: &CallContext) -> (r: Result<ApplyAction, PotError>)
        ensures
            (self.spec_is_chef(ctx.predecessor@) || self.spec_is_owner(ctx.predecessor@) || self.spec_is_admin(ctx.predecessor@))
                ==> r == Err::<ApplyAction, PotError>(PotError::CannotApply),
            !(self.spec_is_chef(ctx.predecessor@) || self.spec_is_owner(ctx.predecessor@) || self.spec_is_admin(ctx.predecessor@)) ==> {
                match self.registry_provider {
                    None => r == Ok::<ApplyAction, PotError>(ApplyAction::Apply { project_id: ctx.predecessor, deposit: ctx.attached_deposit }),
                    Some(p) => {
                        &&& (r is Ok <==> spec_count(p.0@, PROVIDER_ID_DELIMITER) == 1)
                        &&& r matches Err(e) ==> e == PotError::InvalidProvider
                        &&& r matches Ok(ApplyAction::QueryRegistry { contract_id, method_name, project_id, deposit })
                            ==> spec_is_split(p.0@, contract_id@, method_name@) && project_id == ctx.predecessor && deposit == ctx.attached_deposit
                        &&& r is Ok ==> r->Ok_0 is QueryRegistry
                    },
                }
            },
    {
        let project_id = ctx.predecessor.clone();
        if self.is_chef(&project_id) || self.is_owner_or_admin(&project_id) {
            return Err(PotError::CannotApply);
        }
        match &self.registry_provider {
            None => Ok(ApplyAction::Apply { project_id, deposit: ctx.attached_deposit }),
            Some(p) => match p.try_decompose() {
                None => Err(PotError::InvalidProvider),
                Some((contract_id, method_name)) => Ok(ApplyAction::QueryRegistry {
                    contract_id,
                    method_name,
                    project_id,
                    deposit: ctx.attached_deposit,
                }),
            },
        }
    }

    /// Answer of the registry: the application goes on only when the project
    /// is registered (`registered` is `None` when the query failed).
    pub fn assert_can_apply_callback(
        &mut self,
        ctx: &CallContext,
        project_id: ProjectId,
        message: Option<String>,
        deposit: u128,
        registered: Option<bool>,
        storage_cost: u128,
    ) -> (r: Result<(Application, u128), PotError>)
        requires
            old(self).wf(),
        ensures
            final(self).wf(),
            registered != Some(true) ==> r == Err::<(Application, u128), PotError>(PotError::NotRegistered) && *final(self) == *old(self),
            registered == Some(true) ==> old(self).spec_apply_outcome(*final(self), *ctx, project_id, message, deposit, storage_cost, r),
    {
        match registered {
            Some(true) => self.handle_apply(ctx, project_id, message, deposit, storage_cost),
            _ => Err(PotError::NotRegistered),
        }
    }

    /// What `handle_apply` does from state `self` to `after`.
    pub open spec fn spec_apply_outcome(
        &self,
        after: Contract,
        ctx: CallContext,
        project_id: ProjectId,
        message: Option<String>,
        deposit: u128,
        storage_cost: u128,
        r: Result<(Application, u128), PotError>,
    ) -> bool {
        let app = Application {
            project_id,
            message,
            status: ApplicationStatus::Pending,
            submitted_at: ctx.block_timestamp_ms,
            updated_at: None,
            review_notes: None,
        };
        &&& r is Err ==> after == *self
        &&& (self.applications_by_id@.contains_key(project_id@) ==> r == Err::<(Application, u128), PotError>(PotError::ApplicationExists))
        &&& (!self.applications_by_id@.contains_key(project_id@) && !self.spec_application_period_open(ctx.block_timestamp_ms)
            ==> r == Err::<(Application, u128), PotError>(PotError::ApplicationPeriodClosed))
        &&& (!self.applications_by_id@.contains_key(project_id@) && self.spec_application_period_open(ctx.block_timestamp_ms) && deposit < storage_cost
            ==> r == Err::<(Application, u128), PotError>(PotError::InsufficientStorageDeposit))
        &&& (!self.applications_by_id@.contains_key(project_id@) && self.spec_application_period_open(ctx.block_timestamp_ms) && deposit >= storage_cost
            ==> {
                &&& r == Ok::<(Application, u128), PotError>((app, (deposit - storage_cost) as u128))
                &&& after.applications_by_id@ == self.applications_by_id@.insert(project_id@, app)
                &&& after.approved_application_ids == self.approved_application_ids
                &&& after.donations_by_id == self.donations_by_id
                &&& after.payouts_by_id == self.payouts_by_id
                &&& after.matching_pool_balance == self.matching_pool_balance
            })
    }

    /// Records a pending application of `project_id`, open during the
    /// application period only, once per project. The attached `deposit` must
    /// cover the storage of the record (`storage_cost`); the rest is refunded
    /// (returned with the application).
    pub fn handle_apply(
        &mut self,
        ctx: &CallContext,
        project_id: ProjectId,
        message: Option<String>,
        deposit: u128,
        storage_cost: u128,
    ) -> (r: Result<(Application, u128), PotError>)
        requires
            old(self).wf(),
        ensures
            final(self).wf(),
            old(self).spec_apply_outcome(*final(self), *ctx, project_id, message, deposit, storage_cost, r),
            r is Ok ==> old(self).application_start_ms <= ctx.block_timestamp_ms && ctx.block_timestamp_ms < old(self).application_end_ms,
            !old(self).applications_by_id@.contains_key(project_id@)
                && !(old(self).application_start_ms <= ctx.block_timestamp_ms && ctx.block_timestamp_ms < old(self).application_end_ms)
                ==> r == Err::<(Application, u128), PotError>(PotError::ApplicationPeriodClosed),
    {
        if self.applications_by_id.contains_key(&project_id) {
            return Err(PotError::ApplicationExists);
        }
        self.assert_application_period_open(ctx)?;
        if deposit < storage_cost {
            return Err(PotError::InsufficientStorageDeposit);
        }
        let application = Application {
            project_id: project_id.clone(),
            message,
            status: ApplicationStatus::Pending,
            submitted_at: ctx.block_timestamp_ms,
            updated_at: None,
            review_notes: None,
        };
        let ghost before = *self;
        self.applications_by_id.insert(project_id, application.copy());
        assert(self.spec_approved_consistent()) by {
            assert forall|p: Seq<char>| #[trigger] self.approved_application_ids@.contains(p) <==> (
                self.applications_by_id@.contains_key(p) && self.applications_by_id@[p].status == ApplicationStatus::Approved) by {
                assert(before.approved_application_ids@.contains(p) <==> (
                    before.applications_by_id@.contains_key(p) && before.applications_by_id@[p].status == ApplicationStatus::Approved));
            }
        }
        Ok((application, deposit - storage_cost))
    }

    /// Withdraws the caller's pending application; the attached deposit and
    /// the cost of the storage freed (`freed_storage_cost`) are refunded.
    pub fn unapply(&mut self, ctx: &CallContext, freed_storage_cost: u128) -> (r: Result<u128, PotError>)
        requires
            old(self).wf(),
        ensures
            final(self).wf(),
            r is Err ==> *final(self) == *old(self),
            !old(self).applications_by_id@.contains_key(ctx.predecessor@) ==> r == Err::<u128, PotError>(PotError::ApplicationNotFound),
            old(self).applications_by_id@.contains_key(ctx.predecessor@) ==> {
                let app = old(self).applications_by_id@[ctx.predecessor@];
                &&& app.status != ApplicationStatus::Pending ==> r == Err::<u128, PotError>(PotError::ApplicationNotPending)
                &&& app.status == ApplicationStatus::Pending && ctx.attached_deposit + freed_storage_cost > u128::MAX
                    ==> r == Err::<u128, PotError>(PotError::ArithmeticOverflow)
                &&& app.status == ApplicationStatus::Pending && ctx.attached_deposit + freed_storage_cost <= u128::MAX ==> {
                    &&& r == Ok::<u128, PotError>((ctx.attached_deposit + freed_storage_cost) as u128)
                    &&& final(self).applications_by_id@ == old(self).applications_by_id@.remove(ctx.predecessor@)
                    &&& final(self).approved_application_ids == old(self).approved_application_ids
                }
            },
    {
        let status = match self.applications_by_id.get(&ctx.predecessor) {
            None => return Err(PotError::ApplicationNotFound),
            Some(a) => a.status,
        };
        if status != ApplicationStatus::Pending {
            return Err(PotError::ApplicationNotPending);
        }
        if ctx.attached_deposit > u128::MAX - freed_storage_cost {
            return Err(PotError::ArithmeticOverflow);
        }
        let ghost before = *self;
        self.applications_by_id.remove(&ctx.predecessor);
        assert(self.spec_approved_consistent()) by {
            assert forall|p: Seq<char>| #[trigger] self.approved_application_ids@.contains(p) <==> (
                self.applications_by_id@.contains_key(p) && self.applications_by_id@[p].status == ApplicationStatus::Approved) by {
                assert(before.approved_application_ids@.contains(p) <==> (
                    before.applications_by_id@.contains_key(p) && before.applications_by_id@[p].status == ApplicationStatus::Approved));
            }
        }
        Ok(ctx.attached_deposit + freed_storage_cost)
    }

    /// What `chef_set_application_status` does from `self` to `after`:
    /// refused (nothing changed) to callers other than the chef, admins and
    /// owner, for a project without application, and when approving once
    /// `max_projects` projects are approved; otherwise the application takes
    /// the status, the notes and the time, and the project is approved
    /// exactly when the new status is `Approved`.
    pub open spec fn spec_status_outcome(
        &self,
        after: Contract,
        ctx: CallContext,
        project_id: ProjectId,
        status: ApplicationStatus,
        notes: String,
        r: Result<Application, PotError>,
    ) -> bool {
        &&& (r is Err ==> after == *self)
        &&& (self.spec_chef_check(ctx) is Err ==> r == Err::<Application, PotError>(self.spec_chef_check(ctx)->Err_0))
        &&& (self.spec_chef_check(ctx) is Ok ==> {
            let apps = self.applications_by_id@;
            &&& !apps.contains_key(project_id@) ==> r == Err::<Application, PotError>(PotError::ApplicationNotFound)
            &&& apps.contains_key(project_id@) && status == ApplicationStatus::Approved
                && self.approved_application_ids@.len() >= self.max_projects
                ==> r == Err::<Application, PotError>(PotError::MaxProjectsReached)
            &&& apps.contains_key(project_id@) && !(status == ApplicationStatus::Approved
                && self.approved_application_ids@.len() >= self.max_projects) ==> {
                let app = Application {
                    status,
                    updated_at: Some(ctx.block_timestamp_ms),
                    review_notes: Some(notes),
                    ..apps[project_id@]
                };
                &&& r == Ok::<Application, PotError>(app)
                &&& after.applications_by_id@ == apps.insert(project_id@, app)
                &&& forall|p: Seq<char>| #[trigger] after.approved_application_ids@.contains(p) <==> (
                    if p == project_id@ { status == ApplicationStatus::Approved } else { self.approved_application_ids@.contains(p) })
                &&& after.approved_application_ids@.len() <= self.approved_application_ids@.len()
                    + if status == ApplicationStatus::Approved { 1int } else { 0int }
                &&& after.max_projects == self.max_projects
            }
        })
    }

    /// Sets the status of a project's application (chef, admin or owner),
    /// with the review notes and the time. Approving is refused once
    /// `max_projects` projects are approved; un-approving removes the project
    /// from the approved set.
    pub fn chef_set_application_status(
        &mut self,
        ctx: &CallContext,
        project_id: ProjectId,
        status: ApplicationStatus,
        notes: String,
    ) -> (r: Result<Application, PotError>)
        requires
            old(self).wf(),
        ensures
            final(self).wf(),
            old(self).spec_status_outcome(*final(self), *ctx, project_id, status, notes, r),
    {
        self.assert_chef_or_greater(ctx)?;
        let current = match self.applications_by_id.get(&project_id) {
            None => return Err(PotError::ApplicationNotFound),
            Some(a) => a.copy(),
        };
        if status == ApplicationStatus::Approved {
            self.assert_max_projects_not_reached()?;
        }
        let previous_status = current.status;
        let application = Application {
            status,
            updated_at: Some(ctx.block_timestamp_ms),
            review_notes: Some(notes),
            ..current
        };
        let ghost before = *self;
        self.applications_by_id.insert(project_id.clone(), application.copy());
        if status == ApplicationStatus::Approved {
            self.approved_application_ids.insert(project_id);
        } else if previous_status == ApplicationStatus::Approved {
            let ghost pre = self.approved_application_ids@;
            let removed = self.approved_application_ids.remove(&project_id);
            proof {
                if removed {
                    crate::collections::lemma_swap_remove(pre, pre.index_of(project_id@));
                }
            }
        }
        proof {
            broadcast use vstd::seq_lib::group_seq_properties;
            assert forall|p: Seq<char>| #[trigger] self.approved_application_ids@.contains(p) <==> (
                if p == project_id@ { status == ApplicationStatus::Approved } else { before.approved_application_ids@.contains(p) }) by {
                assert(before.approved_application_ids@.contains(p) <==> (
                    before.applications_by_id@.contains_key(p) && before.applications_by_id@[p].status == ApplicationStatus::Approved));
            }
        }
        Ok(application)
    }

    /// `chef_set_application_status` with `Approved`.
    pub fn chef_mark_application_approved(&mut self, ctx: &CallContext, project_id: ProjectId, notes: String) -> (r: Result<Application, PotError>)
        requires
            old(self).wf(),
        ensures
            final(self).wf(),
            old(self).spec_status_outcome(*final(self), *ctx, project_id, ApplicationStatus::Approved, notes, r),
            r is Err ==> *final(self) == *old(self),
            r matches Ok(a) ==> a.status == ApplicationStatus::Approved && final(self).approved_application_ids@.contains(project_id@),
    {
        self.chef_set_application_status(ctx, project_id, ApplicationStatus::Approved, notes)
    }

    /// `chef_set_application_status` with `Rejected`.
    pub fn chef_mark_application_rejected(&mut self, ctx: &CallContext, project_id: ProjectId, notes: String) -> (r: Result<Application, PotError>)
        requires
            old(self).wf(),
        ensures
            final(self).wf(),
            old(self).spec_status_outcome(*final(self), *ctx, project_id, ApplicationStatus::Rejected, notes, r),
            r is Err ==> *final(self) == *old(self),
            r matches Ok(a) ==> a.status == ApplicationStatus::Rejected && !final(self).approved_application_ids@.contains(project_id@),
    {
        self.chef_set_application_status(ctx, project_id, ApplicationStatus::Rejected, notes)
    }

    /// `chef_set_application_status` with `InReview`.
    pub fn chef_mark_application_in_review(&mut self, ctx: &CallContext, project_id: ProjectId, notes: String) -> (r: Result<Application, PotError>)
        requires
            old(self).wf(),
        ensures
            final(self).wf(),
            old(self).spec_status_outcome(*final(self), *ctx, project_id, ApplicationStatus::InReview, notes, r),
            r is Err ==> *final(self) == *old(self),
            r matches Ok(a) ==> a.status == ApplicationStatus::InReview && !final(self).approved_application_ids@.contains(project_id@),
    {
        self.chef_set_application_status(ctx, project_id, ApplicationStatus::InReview, notes)
    }

    /// `chef_set_application_status` with `Pending`.
    pub fn chef_mark_application_pending(&mut self, ctx: &CallContext, project_id: ProjectId, notes: String) -> (r: Result<Application, PotError>)
        requires
            old(self).wf(),
        ensures
            final(self).wf(),
            old(self).spec_status_outcome(*final(self), *ctx, project_id, ApplicationStatus::Pending, notes, r),
            r is Err ==> *final(self) == *old(self),
            r matches Ok(a) ==> a.status == ApplicationStatus::Pending && !final(self).approved_application_ids@.contains(project_id@),
    {
        self.chef_set_application_status(ctx, project_id, ApplicationStatus::Pending, notes)
    }

    /// The application of `project_id`.
    pub fn get_application_by_project_id(&self, project_id: ProjectId) -> (r: Result<Application, PotError>)
        requires
            self.wf(),
        ensures
            self.applications_by_id@.contains_key(project_id@) ==> r == Ok::<Application, PotError>(self.applications_by_id@[project_id@]),
            !self.applications_by_id@.contains_key(project_id@) ==> r == Err::<Application, PotError>(PotError::ApplicationNotFound),
    {
        match self.applications_by_id.get(&project_id) {
            Some(a) => Ok(a.copy()),
            None => Err(PotError::ApplicationNotFound),
        }
    }

    /// A page of the applications (in storage order), then only those with
    /// `status` when it is given. Refused when `from_index` is past the end
    /// or `limit` is zero.
    pub fn get_applications(&self, from_index: Option<u64>, limit: Option<u64>, status: Option<ApplicationStatus>) -> (r: Result<
        Vec<Application>,
        PotError,
    >)
        requires
            self.wf(),
        ensures
            ({
                let from = crate::util::unwrap_or(from_index, 0);
                let lim = crate::util::unwrap_or(limit, u64::MAX);
                let all = spec_app_values(self.applications_by_id);
                &&& from > all.len() ==> r == Err::<Vec<Application>, PotError>(PotError::OutOfBounds)
                &&& from <= all.len() && lim == 0 ==> r == Err::<Vec<Application>, PotError>(PotError::ZeroLimit)
                &&& from <= all.len() && lim != 0 ==> (r matches Ok(v) && v@ == spec_with_status(page(all, from as int, lim as int), status))
            }),
    {
        let from = match from_index {
            Some(f) => f,
            None => 0,
        };
        let lim = match limit {
            Some(l) => l,
            None => u64::MAX,
        };
        let n = self.applications_by_id.len();
        proof {
            self.applications_by_id.lemma_wf();
        }
        if from as u128 > n as u128 {
            return Err(PotError::OutOfBounds);
        }
        if lim == 0 {
            return Err(PotError::ZeroLimit);
        }
        let lim_usize: usize = if lim as u128 > usize::MAX as u128 { usize::MAX } else { lim as usize };
        let (start, end) = page_bounds(n, from as usize, lim_usize);
        let ghost all = spec_app_values(self.applications_by_id);
        let ghost pg = page(all, from as int, lim as int);
        assert(pg =~= all.subrange(start as int, end as int));
        let mut out: Vec<Application> = Vec::new();
        let mut i: usize = start;
        while i < end
            invariant
                self.wf(),
                start <= i <= end <= n,
                n == self.applications_by_id.order().len(),
                all == spec_app_values(self.applications_by_id),
                out@ == spec_with_status(all.subrange(start as int, i as int), status),
            decreases end - i,
        {
            let a = self.applications_by_id.value_at(i);
            assert(all.subrange(start as int, i + 1).drop_last() =~= all.subrange(start as int, i as int));
            match status {
                Some(st) => {
                    if a.status == st {
                        out.push(a.copy());
                    }
                },
                None => {
                    out.push(a.copy());
                },
            }
            i += 1;
        }
        Ok(out)
    }
}

/// An application withdrawn is undone: when a project with no application
/// applies (`handle_apply` records its application) and then withdraws it
/// (`unapply`), the applications and the approved projects are as before.
pub proof fn lemma_application_withdrawn(
    before: Contract,
    applied: Contract,
    withdrawn: Contract,
    project_id: Seq<char>,
    application: Application,
)
    requires
        !before.applications_by_id@.contains_key(project_id),
        applied.applications_by_id@ == before.applications_by_id@.insert(project_id, application),
        applied.approved_application_ids == before.approved_application_ids,
        withdrawn.applications_by_id@ == applied.applications_by_id@.remove(project_id),
        withdrawn.approved_application_ids == applied.approved_application_ids,
    ensures
        withdrawn.applications_by_id@ == before.applications_by_id@,
        withdrawn.approved_application_ids == before.approved_application_ids,
{
    assert(withdrawn.applications_by_id@ =~= before.applications_by_id@);
}

/// Setting an application's status keeps the approved projects within
/// `max_projects`: when at most `max_projects` projects are approved before
/// `chef_set_application_status` (whatever the status set), at most that
/// many are approved after it.
pub proof fn lemma_approvals_within_max(
    before: Contract,
    after: Contract,
    ctx: CallContext,
    project_id: ProjectId,
    status: ApplicationStatus,
    notes: String,
    r: Result<Application, PotError>,
)
    requires
        before.approved_application_ids@.len() <= before.max_projects,
        before.spec_status_outcome(after, ctx, project_id, status, notes, r),
    ensures
        after.approved_application_ids@.len() <= after.max_projects,
{
}

/// Applications are taken only while the application period is open: an
/// application by a project without one, at a time before the period's
/// start or at or after its end, is refused with `ApplicationPeriodClosed`;
/// an accepted one comes at a time `t` with
/// `application_start_ms <= t < application_end_ms`.
pub proof fn lemma_applications_only_while_open(
    before: Contract,
    after: Contract,
    ctx: CallContext,
    project_id: ProjectId,
    message: Option<String>,
    deposit: u128,
    storage_cost: u128,
    r: Result<(Application, u128), PotError>,
)
    requires
        before.spec_apply_outcome(after, ctx, project_id, message, deposit, storage_cost, r),
    ensures
        r is Ok ==> before.application_start_ms <= ctx.block_timestamp_ms && ctx.block_timestamp_ms < before.application_end_ms,
        !before.applications_by_id@.contains_key(project_id@)
            && !(before.application_start_ms <= ctx.block_timestamp_ms && ctx.block_timestamp_ms < before.application_end_ms)
            ==> r == Err::<(Application, u128), PotError>(PotError::ApplicationPeriodClosed),
{
}

} // verus!
