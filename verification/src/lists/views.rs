//! Views of the lists contract: lists (all, by owner, by registrant),
//! upvotes, registrations of a list or of a registrant, and refund claims.
use vstd::prelude::*;
use crate::collections::{AccountMap, IdSet};
use crate::lists::contract::Contract;
use crate::lists::types::{
    format_registration, spec_format_registration, ListError, ListExternal, ListId, RegistrationExternal,
    RegistrationInternal, RegistrationStatus,
};
use crate::util::{page, page_bounds, unwrap_or};

verus! {

/// `limit.map(|v| v as usize).unwrap_or(usize::MAX)`.
pub open spec fn spec_limit(limit: Option<u64>) -> usize {
    match limit {
        Some(v) => v as usize,
        None => usize::MAX,
    }
}

fn limit_of(limit: Option<u64>) -> (l: usize)
    ensures
        l == spec_limit(limit),
{
    match limit {
        Some(v) => v as usize,
        None => usize::MAX,
    }
}

/// The registrations among `ids` whose status is `status`, in order.
pub open spec fn spec_with_status(ids: Seq<u64>, regs: Map<u64, RegistrationInternal>, status: RegistrationStatus) -> Seq<u64>
    decreases ids.len(),
{
    if ids.len() == 0 {
        ids
    } else {
        let rest = spec_with_status(ids.drop_last(), regs, status);
        if regs[ids.last()].status == status {
            rest.push(ids.last())
        } else {
            rest
        }
    }
}

/// Every ID of `ids` has a registration.
pub open spec fn spec_all_present(ids: Seq<u64>, regs: Map<u64, RegistrationInternal>) -> bool {
    forall|j: int| 0 <= j < ids.len() ==> regs.contains_key(#[trigger] ids[j])
}

impl Contract {
    /// `r` is the external form of the lists `ids`, or refused when one of
    /// them is missing or cannot be formatted.
    pub open spec fn spec_lists_result(&self, ids: Seq<u64>, r: Result<Vec<ListExternal>, ListError>) -> bool {
        if exists|j: int| 0 <= j < ids.len() && !(self.lists_by_id@.contains_key(#[trigger] ids[j]) && self.spec_can_format(ids[j])) {
            r == Err::<Vec<ListExternal>, ListError>(ListError::ListNotFound)
        } else {
            r matches Ok(v) && v@.len() == ids.len() && forall|j: int| 0 <= j < ids.len()
                ==> self.spec_list_external(#[trigger] v@[j], ids[j], self.lists_by_id@[ids[j]])
        }
    }

    /// The external form of the lists `ids[start..end]`.
    fn format_lists(&self, ids: &Vec<u64>, start: usize, end: usize) -> (r: Result<Vec<ListExternal>, ListError>)
        requires
            self.wf(),
            start <= end <= ids@.len(),
        ensures
            self.spec_lists_result(ids@.subrange(start as int, end as int), r),
    {
        let ghost p = ids@.subrange(start as int, end as int);
        let mut out: Vec<ListExternal> = Vec::new();
        let mut i = start;
        while i < end
            invariant
                self.wf(),
                start <= i <= end <= ids@.len(),
                p == ids@.subrange(start as int, end as int),
                out@.len() == i - start,
                forall|j: int| 0 <= j < i - start ==> self.lists_by_id@.contains_key(#[trigger] p[j]) && self.spec_can_format(p[j]),
                forall|j: int| 0 <= j < i - start ==> self.spec_list_external(#[trigger] out@[j], p[j], self.lists_by_id@[p[j]]),
            decreases end - i,
        {
            let id = ids[i];
            assert(p[i - start] == id);
            let list = match self.lists_by_id.get(id) {
                None => {
                    assert(!(self.lists_by_id@.contains_key(p[(i - start) as int]) && self.spec_can_format(p[(i - start) as int])));
                    return Err(ListError::ListNotFound);
                },
                Some(l) => l.copy(),
            };
            match self.format_list(id, list) {
                Err(e) => {
                    assert(!(self.lists_by_id@.contains_key(p[(i - start) as int]) && self.spec_can_format(p[(i - start) as int])));
                    return Err(e);
                },
                Ok(e) => out.push(e),
            }
            i += 1;
        }
        Ok(out)
    }

    /// A page of all lists, in creation order (past the end, none).
    pub fn get_lists(&self, from_index: Option<u64>, limit: Option<u64>) -> (r: Result<Vec<ListExternal>, ListError>)
        requires
            self.wf(),
        ensures
            self.spec_lists_result(page(self.lists_by_id.order(), unwrap_or(from_index, 0) as usize as int,
                unwrap_or(limit, u64::MAX) as usize as int), r),
    {
        let ids = self.lists_by_id.keys_vec();
        let from: usize = match from_index {
            Some(v) => v as usize,
            None => 0,
        };
        let lim: usize = match limit {
            Some(v) => v as usize,
            None => u64::MAX as usize,
        };
        let (s, e) = page_bounds(ids.len(), from, lim);
        assert(page(ids@, from as int, lim as int) =~= ids@.subrange(s as int, e as int));
        self.format_lists(&ids, s, e)
    }

    /// The IDs stored under `key` in `m`, if any.
    fn ids_under(m: &AccountMap<IdSet>, key: &String) -> (r: Option<Vec<u64>>)
        requires
            m.wf(),
        ensures
            match r {
                None => !m@.contains_key(key@),
                Some(v) => m@.contains_key(key@) && v@ == m@[key@]@,
            },
    {
        match m.get(key) {
            None => None,
            Some(s) => Some(s.to_vec()),
        }
    }

    /// The lists owned by `owner_id`; refused when it owns none (no set).
    pub fn get_lists_for_owner(&self, owner_id: String) -> (r: Result<Vec<ListExternal>, ListError>)
        requires
            self.wf(),
        ensures
            !self.list_ids_by_owner@.contains_key(owner_id@) ==> r == Err::<Vec<ListExternal>, ListError>(ListError::ListNotFound),
            self.list_ids_by_owner@.contains_key(owner_id@) ==> self.spec_lists_result(self.list_ids_by_owner@[owner_id@]@, r),
    {
        match Self::ids_under(&self.list_ids_by_owner, &owner_id) {
            None => Err(ListError::ListNotFound),
            Some(ids) => {
                assert(ids@.subrange(0, ids@.len() as int) =~= ids@);
                self.format_lists(&ids, 0, ids.len())
            },
        }
    }

    /// The lists `registrant_id` is registered on; refused when it has none (no set).
    pub fn get_lists_for_registrant(&self, registrant_id: String) -> (r: Result<Vec<ListExternal>, ListError>)
        requires
            self.wf(),
        ensures
            !self.list_ids_by_registrant@.contains_key(registrant_id@) ==> r == Err::<Vec<ListExternal>, ListError>(ListError::ListNotFound),
            self.list_ids_by_registrant@.contains_key(registrant_id@) ==> self.spec_lists_result(self.list_ids_by_registrant@[registrant_id@]@, r),
    {
        match Self::ids_under(&self.list_ids_by_registrant, &registrant_id) {
            None => Err(ListError::ListNotFound),
            Some(ids) => {
                assert(ids@.subrange(0, ids@.len() as int) =~= ids@);
                self.format_lists(&ids, 0, ids.len())
            },
        }
    }

    /// A page of the accounts that upvoted list `list_id`.
    pub fn get_upvotes_for_list(&self, list_id: ListId, from_index: Option<u64>, limit: Option<u64>) -> (r: Result<Vec<String>, ListError>)
        requires
            self.wf(),
        ensures
            !self.upvotes_by_list_id@.contains_key(list_id) ==> r == Err::<Vec<String>, ListError>(ListError::ListNotFound),
            self.upvotes_by_list_id@.contains_key(list_id) ==> (r matches Ok(v) && v@.map_values(|s: String| s@)
                == page(self.upvotes_by_list_id@[list_id]@, unwrap_or(from_index, 0) as usize as int,
                    unwrap_or(limit, u64::MAX) as usize as int)),
    {
        let all = match self.upvotes_by_list_id.get(list_id) {
            None => return Err(ListError::ListNotFound),
            Some(s) => s.to_vec(),
        };
        let from: usize = match from_index {
            Some(v) => v as usize,
            None => 0,
        };
        let lim: usize = match limit {
            Some(v) => v as usize,
            None => u64::MAX as usize,
        };
        let (s, e) = page_bounds(all.len(), from, lim);
        let ghost av = all@.map_values(|x: String| x@);
        assert(page(av, from as int, lim as int) =~= av.subrange(s as int, e as int));
        let mut out: Vec<String> = Vec::new();
        let mut i = s;
        while i < e
            invariant
                s <= i <= e <= all@.len(),
                av == all@.map_values(|x: String| x@),
                out@.map_values(|x: String| x@) == av.subrange(s as int, i as int),
            decreases e - i,
        {
            let x = all[i].clone();
            assert(x@ == av[i as int]);
            let ghost before = out@;
            out.push(x);
            assert(out@.map_values(|y: String| y@) =~= before.map_values(|y: String| y@).push(av[i as int]));
            assert(av.subrange(s as int, i + 1) =~= av.subrange(s as int, i as int).push(av[i as int]));
            i += 1;
        }
        Ok(out)
    }

    /// The refund claims, by registrant, in storage order.
    pub fn get_refunds(&self) -> (r: Vec<(String, u128)>)
        requires
            self.wf(),
        ensures
            r@.len() == self.refund_claims_by_registrant_id.order().len(),
            forall|j: int| 0 <= j < r@.len() ==> (#[trigger] r@[j]).0@ == self.refund_claims_by_registrant_id.order()[j]
                && r@[j].1 == self.refund_claims_by_registrant_id@[r@[j].0@],
    {
        let mut out: Vec<(String, u128)> = Vec::new();
        let mut i: usize = 0;
        while i < self.refund_claims_by_registrant_id.len()
            invariant
                self.wf(),
                i <= self.refund_claims_by_registrant_id.order().len(),
                out@.len() == i,
                forall|j: int| 0 <= j < i ==> (#[trigger] out@[j]).0@ == self.refund_claims_by_registrant_id.order()[j]
                    && out@[j].1 == self.refund_claims_by_registrant_id@[out@[j].0@],
            decreases self.refund_claims_by_registrant_id.order().len() - i,
        {
            let k = self.refund_claims_by_registrant_id.key_at(i);
            let v = *self.refund_claims_by_registrant_id.value_at(i);
            out.push((k, v));
            i += 1;
        }
        out
    }

    /// `r` is the page of the registrations `ids` (filtered by `status` when
    /// given) that starts at `from_index` and holds at most `limit` items.
    /// Refused when the limit is zero, when filtering meets an ID without a
    /// registration, when `from_index` is past the end, or when the page
    /// holds an ID without a registration.
    pub open spec fn spec_registrations_page(
        &self,
        ids: Seq<u64>,
        status: Option<RegistrationStatus>,
        from_index: Option<u64>,
        limit: Option<u64>,
        r: Result<Vec<RegistrationExternal>, ListError>,
    ) -> bool {
        let regs = self.registrations_by_id@;
        let start = unwrap_or(from_index, 0);
        if spec_limit(limit) == 0 {
            r == Err::<Vec<RegistrationExternal>, ListError>(ListError::ZeroLimit)
        } else if status is Some && !spec_all_present(ids, regs) {
            r == Err::<Vec<RegistrationExternal>, ListError>(ListError::RegistrationNotFound)
        } else {
            let filtered = match status {
                Some(st) => spec_with_status(ids, regs, st),
                None => ids,
            };
            if filtered.len() < start {
                r == Err::<Vec<RegistrationExternal>, ListError>(ListError::OutOfBounds)
            } else {
                self.spec_registrations_result(page(filtered, start as int, spec_limit(limit) as int), r)
            }
        }
    }

    /// `r` is the external form of the registrations `pg`, or refused when
    /// one of them is missing.
    pub open spec fn spec_registrations_result(&self, pg: Seq<u64>, r: Result<Vec<RegistrationExternal>, ListError>) -> bool {
        if !spec_all_present(pg, self.registrations_by_id@) {
            r == Err::<Vec<RegistrationExternal>, ListError>(ListError::RegistrationNotFound)
        } else {
            r matches Ok(v) && v@ == pg.map_values(|id: u64| spec_format_registration(id, self.registrations_by_id@[id]))
        }
    }

    /// The IDs of `ids` whose registration has `status`; refused when one of
    /// them has no registration.
    fn filter_by_status(&self, ids: &Vec<u64>, status: RegistrationStatus) -> (r: Result<Vec<u64>, ListError>)
        requires
            self.wf(),
        ensures
            !spec_all_present(ids@, self.registrations_by_id@) ==> r == Err::<Vec<u64>, ListError>(ListError::RegistrationNotFound),
            spec_all_present(ids@, self.registrations_by_id@) ==> (r matches Ok(v) && v@ == spec_with_status(ids@, self.registrations_by_id@, status)),
    {
        let ghost regs = self.registrations_by_id@;
        let mut out: Vec<u64> = Vec::new();
        let mut i: usize = 0;
        while i < ids.len()
            invariant
                self.wf(),
                regs == self.registrations_by_id@,
                i <= ids@.len(),
                spec_all_present(ids@.subrange(0, i as int), regs),
                out@ == spec_with_status(ids@.subrange(0, i as int), regs, status),
            decreases ids@.len() - i,
        {
            let id = ids[i];
            assert(ids@.subrange(0, i + 1).drop_last() =~= ids@.subrange(0, i as int));
            match self.registrations_by_id.get(id) {
                None => {
                    assert(!regs.contains_key(ids@[i as int]));
                    return Err(ListError::RegistrationNotFound);
                },
                Some(reg) => {
                    if reg.status == status {
                        out.push(id);
                    }
                },
            }
            i += 1;
            assert(spec_all_present(ids@.subrange(0, i as int), regs)) by {
                assert forall|j: int| 0 <= j < i implies regs.contains_key(#[trigger] ids@.subrange(0, i as int)[j]) by {
                    if j < i - 1 {
                        assert(ids@.subrange(0, i as int)[j] == ids@.subrange(0, i - 1)[j]);
                    }
                }
            }
        }
        assert(ids@.subrange(0, ids@.len() as int) =~= ids@);
        Ok(out)
    }

    /// A page of the registrations `ids`, as `spec_registrations_page` says.
    fn registrations_page(&self, ids: &Vec<u64>, status: Option<RegistrationStatus>, from_index: Option<u64>, limit: Option<u64>) -> (r: Result<Vec<RegistrationExternal>, ListError>)
        requires
            self.wf(),
            spec_limit(limit) != 0,
        ensures
            self.spec_registrations_page(ids@, status, from_index, limit, r),
    {
        let lim = limit_of(limit);
        let ghost ids_v = ids@;
        let ghost spec_f = match status {
            Some(st) => spec_with_status(ids_v, self.registrations_by_id@, st),
            None => ids_v,
        };
        let filtered = match status {
            Some(st) => self.filter_by_status(ids, st)?,
            None => {
                let c = ids.clone();
                assert(c@ =~= ids@);
                c
            },
        };
        let start: u64 = match from_index {
            Some(v) => v,
            None => 0,
        };
        if (filtered.len() as u64) < start {
            return Err(ListError::OutOfBounds);
        }
        let (s, e) = page_bounds(filtered.len(), start as usize, lim);
        let ghost pg = filtered@.subrange(s as int, e as int);
        assert(page(filtered@, start as int, lim as int) =~= pg);
        let mut out: Vec<RegistrationExternal> = Vec::new();
        let mut i = s;
        while i < e
            invariant
                self.wf(),
                s <= i <= e <= filtered@.len(),
                pg == filtered@.subrange(s as int, e as int),
                spec_f == filtered@,
                ids_v == ids@,
                pg == page(spec_f, unwrap_or(from_index, 0) as int, spec_limit(limit) as int),
                spec_limit(limit) != 0,
                status is Some ==> spec_all_present(ids_v, self.registrations_by_id@),
                spec_f == (match status {
                    Some(st) => spec_with_status(ids_v, self.registrations_by_id@, st),
                    None => ids_v,
                }),
                spec_f.len() >= unwrap_or(from_index, 0),
                out@.len() == i - s,
                forall|j: int| 0 <= j < i - s ==> self.registrations_by_id@.contains_key(#[trigger] pg[j]),
                forall|j: int| 0 <= j < i - s ==> #[trigger] out@[j] == spec_format_registration(pg[j], self.registrations_by_id@[pg[j]]),
            decreases e - i,
        {
            let id = filtered[i];
            assert(pg[i - s] == id);
            match self.registrations_by_id.get(id) {
                None => {
                    assert(!self.registrations_by_id@.contains_key(pg[(i - s) as int]));
                    return Err(ListError::RegistrationNotFound);
                },
                Some(reg) => out.push(format_registration(id, reg.copy())),
            }
            i += 1;
        }
        assert(out@ =~= pg.map_values(|id: u64| spec_format_registration(id, self.registrations_by_id@[id])));
        Ok(out)
    }

    /// A page of the registrations on list `list_id`, with `status` when given.
    pub fn get_registrations_for_list(
        &self,
        list_id: ListId,
        status: Option<RegistrationStatus>,
        from_index: Option<u64>,
        limit: Option<u64>,
    ) -> (r: Result<Vec<RegistrationExternal>, ListError>)
        requires
            self.wf(),
        ensures
            spec_limit(limit) == 0 ==> r == Err::<Vec<RegistrationExternal>, ListError>(ListError::ZeroLimit),
            spec_limit(limit) != 0 && !self.registration_ids_by_list_id@.contains_key(list_id)
                ==> r == Err::<Vec<RegistrationExternal>, ListError>(ListError::ListNotFound),
            self.registration_ids_by_list_id@.contains_key(list_id) ==> self.spec_registrations_page(
                self.registration_ids_by_list_id@[list_id]@, status, from_index, limit, r),
    {
        if limit_of(limit) == 0 {
            return Err(ListError::ZeroLimit);
        }
        let ids = match self.registration_ids_by_list_id.get(list_id) {
            None => return Err(ListError::ListNotFound),
            Some(s) => s.to_vec(),
        };
        self.registrations_page(&ids, status, from_index, limit)
    }

    /// A page of the registrations of `registrant_id`, with `status` when given.
    pub fn get_registrations_for_registrant(
        &self,
        registrant_id: String,
        status: Option<RegistrationStatus>,
        from_index: Option<u64>,
        limit: Option<u64>,
    ) -> (r: Result<Vec<RegistrationExternal>, ListError>)
        requires
            self.wf(),
        ensures
            spec_limit(limit) == 0 ==> r == Err::<Vec<RegistrationExternal>, ListError>(ListError::ZeroLimit),
            spec_limit(limit) != 0 && !self.registration_ids_by_registrant_id@.contains_key(registrant_id@)
                ==> r == Err::<Vec<RegistrationExternal>, ListError>(ListError::RegistrationNotFound),
            self.registration_ids_by_registrant_id@.contains_key(registrant_id@) ==> self.spec_registrations_page(
                self.registration_ids_by_registrant_id@[registrant_id@]@, status, from_index, limit, r),
    {
        if limit_of(limit) == 0 {
            return Err(ListError::ZeroLimit);
        }
        let ids = match Self::ids_under(&self.registration_ids_by_registrant_id, &registrant_id) {
            None => return Err(ListError::RegistrationNotFound),
            Some(v) => v,
        };
        self.registrations_page(&ids, status, from_index, limit)
    }
}

} // verus!
