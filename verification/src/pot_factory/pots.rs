//! Deploying pots: the account a new pot gets, the deposit it takes, the
//! record kept of it, and what happens when the deployment fails.
use vstd::prelude::*;
use crate::env::{is_valid_account_id, spec_storage_byte_cost, spec_valid_account_id, storage_byte_cost, storage_cost, CallContext, Transfer};
use crate::pot_factory::contract::Contract;
use crate::pot_factory::slug::{slugify, spec_slugify};
use crate::pot_factory::types::{Pot, PotArgs, PotExternal, PotFactoryError};
use crate::pot_factory::validation::{assert_valid_pot_args, spec_pot_args_check, EXTRA_BYTES};
use crate::provider::{spec_provider_text, ProviderId};
use crate::text::{chars_of, lemma_str_lt_total, lemma_str_lt_transitive, spec_str_lt, str_lt, string_from_chars};

verus! {

/// Name of the factory method that pots query for the protocol fee configuration.
pub open spec fn spec_protocol_config_method() -> Seq<char> {
    "get_protocol_config"@
}

/// The provider ID under which the factory `factory_id` serves the protocol configuration.
pub fn protocol_config_provider(factory_id: &String) -> (p: ProviderId)
    ensures
        p.0@ == spec_provider_text(factory_id@, spec_protocol_config_method()),
{
    ProviderId::new(factory_id.clone(), "get_protocol_config".to_owned())
}

/// The handle of a new pot: the one given, or else the slug of its name.
pub open spec fn spec_pot_handle(pot_handle: Option<String>, pot_name: Seq<char>) -> Seq<char> {
    match pot_handle {
        Some(h) => h@,
        None => spec_slugify(pot_name),
    }
}

/// The account of a pot: `"{handle}.{factory_id}"`.
pub open spec fn spec_pot_account_id(handle: Seq<char>, factory_id: Seq<char>) -> Seq<char> {
    handle + seq!['.'] + factory_id
}

/// The account of the pot with handle `handle` under `factory_id`.
pub fn pot_account_id(handle: &String, factory_id: &String) -> (id: String)
    ensures
        id@ == spec_pot_account_id(handle@, factory_id@),
{
    let mut id_chars = chars_of(handle.as_str());
    id_chars.push('.');
    let factory_chars = chars_of(factory_id.as_str());
    let ghost prefix = id_chars@;
    let mut i: usize = 0;
    while i < factory_chars.len()
        invariant
            i <= factory_chars@.len(),
            id_chars@ == prefix + factory_chars@.subrange(0, i as int),
        decreases factory_chars@.len() - i,
    {
        id_chars.push(factory_chars[i]);
        i += 1;
        assert(id_chars@ =~= prefix + factory_chars@.subrange(0, i as int));
    }
    assert(factory_chars@.subrange(0, factory_chars@.len() as int) =~= factory_chars@);
    assert(id_chars@ =~= spec_pot_account_id(handle@, factory_id@));
    string_from_chars(&id_chars)
}

/// Deposit moved to a new pot account: storage for the pot's code, for its
/// serialized arguments twice, and `EXTRA_BYTES` more.
pub open spec fn spec_min_deployment_deposit(wasm_code_len: int, args_len: int) -> int {
    (wasm_code_len + EXTRA_BYTES + 2 * args_len) * spec_storage_byte_cost()
}

/// The result of a successful `deploy_pot`, for the host to carry out: create
/// the account `pot_id` funded with `min_deployment_deposit`, deploy the pot
/// code, call its `new` with `pot_args`, then `deploy_pot_callback`.
pub struct PotDeployment {
    pub pot_id: String,
    /// The record kept of the pot.
    pub pot: Pot,
    /// Arguments of the pot's `new` call, with the factory as protocol config provider.
    pub pot_args: PotArgs,
    pub min_deployment_deposit: u128,
    /// Deposit the deployment keeps; returned to the signer if it fails.
    pub total_required_deposit: u128,
    /// What was attached beyond the required deposit, back to the signer.
    pub refund: Option<Transfer>,
}

/// The result of `deploy_pot_callback`.
pub struct DeployPotCallbackOutcome {
    /// The deployed pot, or `None` when its deployment failed.
    pub pot: Option<PotExternal>,
    /// The required deposit back to the signer, when the deployment failed.
    pub refund: Option<Transfer>,
}

impl Contract {
    /// Deposit moved to a new pot account, for pot code of `wasm_code_len`
    /// bytes and arguments whose serialization takes `args_len` bytes.
    pub fn calculate_min_deployment_deposit(&self, wasm_code_len: usize, args_len: usize) -> (r: u128)
        requires
            wasm_code_len + EXTRA_BYTES + 2 * args_len <= usize::MAX,
        ensures
            r == spec_min_deployment_deposit(wasm_code_len as int, args_len as int),
    {
        let bytes: usize = wasm_code_len + EXTRA_BYTES + args_len * 2;
        let price = storage_byte_cost();
        assert(bytes as int * spec_storage_byte_cost() <= u128::MAX) by (nonlinear_arith)
            requires
                bytes <= usize::MAX,
                usize::MAX <= u64::MAX,
                spec_storage_byte_cost() == 10_000_000_000_000_000_000int,
        ;
        (bytes as u128) * price
    }

    /// Why `deploy_pot` refuses, if it does; the checks run in this order.
    pub open spec fn spec_deploy_check(&self, ctx: CallContext, args: PotArgs, pot_id: Seq<char>, total_required_deposit: int) -> Result<(), PotFactoryError> {
        if self.require_whitelist && self.spec_deployer_check(ctx) is Err {
            self.spec_deployer_check(ctx)
        } else if !spec_valid_account_id(vstd::utf8::encode_utf8(pot_id)) {
            Err(PotFactoryError::InvalidPotAccountId)
        } else if self.pots_by_id@.contains_key(pot_id) {
            Err(PotFactoryError::PotExists)
        } else if spec_pot_args_check(args) is Err {
            spec_pot_args_check(args)
        } else if ctx.attached_deposit < total_required_deposit {
            Err(PotFactoryError::InsufficientDeposit { required: total_required_deposit as u128 })
        } else {
            Ok(())
        }
    }

    /// Deploys a pot under `"{handle}.{factory}"`, where the handle is
    /// `pot_handle` or the slug of the pot's name. The caller pays the
    /// storage of the pot record (`pot_record_bytes`) and the deposit of the
    /// new account (see `calculate_min_deployment_deposit`; `args_len` is the
    /// serialized length of the arguments with the factory as protocol config
    /// provider); the record is kept from now on, and anything attached
    /// beyond what is required goes back to the signer.
    pub fn deploy_pot(
        &mut self,
        ctx: &CallContext,
        pot_args: PotArgs,
        pot_handle: Option<String>,
        wasm_code_len: usize,
        args_len: usize,
        pot_record_bytes: u64,
    ) -> (r: Result<PotDeployment, PotFactoryError>)
        requires
            old(self).wf(),
            wasm_code_len + EXTRA_BYTES + 2 * args_len <= usize::MAX,
            pot_record_bytes * spec_storage_byte_cost() + spec_min_deployment_deposit(wasm_code_len as int, args_len as int) <= u128::MAX,
        ensures
            final(self).wf(),
            ({
                let pot_id = spec_pot_account_id(spec_pot_handle(pot_handle, pot_args.pot_name@), ctx.current_account@);
                let min_deposit = spec_min_deployment_deposit(wasm_code_len as int, args_len as int);
                let total = pot_record_bytes * spec_storage_byte_cost() + min_deposit;
                &&& (r matches Err(e) ==> old(self).spec_deploy_check(*ctx, pot_args, pot_id, total) == Err::<(), PotFactoryError>(e))
                &&& (r is Ok ==> old(self).spec_deploy_check(*ctx, pot_args, pot_id, total) is Ok)
                &&& (r is Err ==> *final(self) == *old(self))
                &&& (r matches Ok(d) ==> {
                    let pot = Pot { deployed_by: ctx.signer, deployed_at_ms: ctx.block_timestamp_ms };
                    &&& d.pot_id@ == pot_id
                    &&& d.pot == pot
                    &&& d.pot_args == (PotArgs { protocol_config_provider: d.pot_args.protocol_config_provider, ..pot_args })
                    &&& d.pot_args.protocol_config_provider matches Some(p)
                        && p.0@ == spec_provider_text(ctx.current_account@, spec_protocol_config_method())
                    &&& d.min_deployment_deposit == min_deposit
                    &&& d.total_required_deposit == total
                    &&& d.refund == (if ctx.attached_deposit > total {
                        Some(Transfer { receiver: ctx.signer, amount: (ctx.attached_deposit - total) as u128, ft_id: None })
                    } else {
                        None
                    })
                    &&& final(self).pots_by_id@ == old(self).pots_by_id@.insert(pot_id, pot)
                    &&& *final(self) == (Contract { pots_by_id: final(self).pots_by_id, ..*old(self) })
                })
            }),
    {
        if self.require_whitelist {
            self.assert_admin_or_whitelisted_deployer(ctx)?;
        }
        let handle = match pot_handle {
            Some(h) => h,
            None => slugify(pot_args.pot_name.as_str()),
        };
        let pot_id = pot_account_id(&handle, &ctx.current_account);
        if !is_valid_account_id(pot_id.as_str().as_bytes()) {
            return Err(PotFactoryError::InvalidPotAccountId);
        }
        if self.pots_by_id.contains_key(&pot_id) {
            return Err(PotFactoryError::PotExists);
        }
        assert_valid_pot_args(&pot_args)?;
        let mut pot_args = pot_args;
        pot_args.protocol_config_provider = Some(protocol_config_provider(&ctx.current_account));
        let min_deployment_deposit = self.calculate_min_deployment_deposit(wasm_code_len, args_len);
        let required_storage_deposit = storage_cost(pot_record_bytes);
        let total_required_deposit = required_storage_deposit + min_deployment_deposit;
        if ctx.attached_deposit < total_required_deposit {
            return Err(PotFactoryError::InsufficientDeposit { required: total_required_deposit });
        }
        let pot = Pot { deployed_by: ctx.signer.clone(), deployed_at_ms: ctx.block_timestamp_ms };
        self.pots_by_id.insert(pot_id.clone(), pot.copy());
        let refund = if ctx.attached_deposit > total_required_deposit {
            Some(Transfer {
                receiver: ctx.signer.clone(),
                amount: ctx.attached_deposit - total_required_deposit,
                ft_id: None,
            })
        } else {
            None
        };
        Ok(PotDeployment {
            pot_id,
            pot,
            pot_args,
            min_deployment_deposit,
            total_required_deposit,
            refund,
        })
    }

    /// Settles a deployment: on success, the deployed pot; on failure, its
    /// record is removed and the required deposit goes back to the signer.
    pub fn deploy_pot_callback(
        &mut self,
        ctx: &CallContext,
        pot_id: String,
        pot: Pot,
        total_required_deposit: u128,
        succeeded: bool,
    ) -> (r: DeployPotCallbackOutcome)
        requires
            old(self).wf(),
        ensures
            final(self).wf(),
            succeeded ==> *final(self) == *old(self),
            succeeded ==> r == (DeployPotCallbackOutcome {
                pot: Some(PotExternal { id: pot_id, deployed_by: pot.deployed_by, deployed_at_ms: pot.deployed_at_ms }),
                refund: None,
            }),
            !succeeded ==> final(self).pots_by_id@ == old(self).pots_by_id@.remove(pot_id@),
            !succeeded ==> *final(self) == (Contract { pots_by_id: final(self).pots_by_id, ..*old(self) }),
            !succeeded ==> r == (DeployPotCallbackOutcome {
                pot: None,
                refund: Some(Transfer { receiver: ctx.signer, amount: total_required_deposit, ft_id: None }),
            }),
    {
        if !succeeded {
            self.pots_by_id.remove(&pot_id);
            DeployPotCallbackOutcome {
                pot: None,
                refund: Some(Transfer { receiver: ctx.signer.clone(), amount: total_required_deposit, ft_id: None }),
            }
        } else {
            DeployPotCallbackOutcome {
                pot: Some(PotExternal { id: pot_id, deployed_by: pot.deployed_by, deployed_at_ms: pot.deployed_at_ms }),
                refund: None,
            }
        }
    }
}

/// The ids of `pots`, in order.
pub open spec fn spec_pot_ids(pots: Seq<PotExternal>) -> Seq<Seq<char>> {
    pots.map_values(|p: PotExternal| p.id@)
}

/// The ids come in strictly increasing order.
pub open spec fn spec_sorted_ids(ids: Seq<Seq<char>>) -> bool {
    forall|i: int, j: int| 0 <= i < j < ids.len() ==> spec_str_lt(#[trigger] ids[i], #[trigger] ids[j])
}

/// First index of a sorted `pots` whose id comes after `id`, or its length.
fn insertion_point(pots: &Vec<PotExternal>, id: &Vec<char>) -> (p: usize)
    requires
        spec_sorted_ids(spec_pot_ids(pots@)),
        !spec_pot_ids(pots@).contains(id@),
    ensures
        p <= pots@.len(),
        forall|j: int| 0 <= j < p ==> spec_str_lt(#[trigger] spec_pot_ids(pots@)[j], id@),
        forall|j: int| p <= j < pots@.len() ==> spec_str_lt(id@, #[trigger] spec_pot_ids(pots@)[j]),
{
    let ghost ids = spec_pot_ids(pots@);
    let mut p: usize = 0;
    while p < pots.len()
        invariant
            p <= pots@.len(),
            ids == spec_pot_ids(pots@),
            spec_sorted_ids(ids),
            !ids.contains(id@),
            forall|j: int| 0 <= j < p ==> spec_str_lt(#[trigger] ids[j], id@),
        decreases pots@.len() - p,
    {
        let other = chars_of(pots[p].id.as_str());
        assert(other@ == ids[p as int]);
        if str_lt(id, &other) {
            assert forall|j: int| p <= j < pots@.len() implies spec_str_lt(id@, #[trigger] ids[j]) by {
                if j > p {
                    lemma_str_lt_transitive(id@, ids[p as int], ids[j]);
                }
            }
            return p;
        }
        proof {
            lemma_str_lt_total(id@, ids[p as int]);
        }
        p += 1;
    }
    p
}

impl Contract {
    /// Every deployed pot, in increasing order of pot ID.
    pub fn get_pots(&self) -> (r: Vec<PotExternal>)
        requires
            self.wf(),
        ensures
            r@.len() == self.pots_by_id@.len(),
            spec_sorted_ids(spec_pot_ids(r@)),
            forall|k: Seq<char>| #[trigger] self.pots_by_id@.contains_key(k) <==> spec_pot_ids(r@).contains(k),
            forall|j: int| 0 <= j < r@.len() ==> {
                let p = #[trigger] r@[j];
                &&& p.deployed_by == self.pots_by_id@[p.id@].deployed_by
                &&& p.deployed_at_ms == self.pots_by_id@[p.id@].deployed_at_ms
            },
    {
        proof {
            self.pots_by_id.lemma_wf();
        }
        let ghost order = self.pots_by_id.order();
        let mut r: Vec<PotExternal> = Vec::new();
        let mut i: usize = 0;
        while i < self.pots_by_id.len()
            invariant
                self.wf(),
                order == self.pots_by_id.order(),
                order.no_duplicates(),
                forall|k: Seq<char>| #[trigger] self.pots_by_id@.contains_key(k) <==> order.contains(k),
                i <= order.len(),
                r@.len() == i,
                spec_sorted_ids(spec_pot_ids(r@)),
                forall|k: Seq<char>| #[trigger] spec_pot_ids(r@).contains(k) <==> order.subrange(0, i as int).contains(k),
                forall|j: int| 0 <= j < r@.len() ==> {
                    let p = #[trigger] r@[j];
                    &&& self.pots_by_id@.contains_key(p.id@)
                    &&& p.deployed_by == self.pots_by_id@[p.id@].deployed_by
                    &&& p.deployed_at_ms == self.pots_by_id@[p.id@].deployed_at_ms
                },
            decreases order.len() - i,
        {
            let id = self.pots_by_id.key_at(i);
            let pot = self.pots_by_id.value_at(i);
            let id_chars = chars_of(id.as_str());
            let ghost before = r@;
            proof {
                if spec_pot_ids(before).contains(id@) {
                    let j = choose|j: int| 0 <= j < i && order[j] == id@;
                    assert(order[j] == order[i as int]);
                }
            }
            let p = insertion_point(&r, &id_chars);
            let item = PotExternal { id, deployed_by: pot.deployed_by.clone(), deployed_at_ms: pot.deployed_at_ms };
            r.insert(p, item);
            proof {
                let ids = spec_pot_ids(r@);
                let old_ids = spec_pot_ids(before);
                assert(ids =~= old_ids.insert(p as int, id_chars@));
                assert forall|a: int, b: int| 0 <= a < b < ids.len() implies spec_str_lt(#[trigger] ids[a], #[trigger] ids[b]) by {
                    if b < p {
                    } else if a < p && b == p {
                    } else if a < p && b > p {
                        lemma_str_lt_transitive(old_ids[a], id_chars@, old_ids[b - 1]);
                    } else if a == p {
                    } else {
                    }
                }
                assert forall|k: Seq<char>| #[trigger] ids.contains(k) <==> order.subrange(0, i + 1).contains(k) by {
                    if ids.contains(k) {
                        let j = choose|j: int| 0 <= j < ids.len() && ids[j] == k;
                        if j < p {
                            assert(old_ids[j] == k);
                        } else if j > p {
                            assert(old_ids[j - 1] == k);
                        }
                        if k != id@ {
                            assert(old_ids.contains(k));
                            let m = choose|m: int| 0 <= m < i && order[m] == k;
                            assert(order.subrange(0, i + 1)[m] == k);
                        } else {
                            assert(order.subrange(0, i + 1)[i as int] == k);
                        }
                    }
                    let upto = order.subrange(0, i + 1);
                    if upto.contains(k) {
                        let m = choose|m: int| 0 <= m < upto.len() && #[trigger] upto[m] == k;
                        if m < i {
                            assert(order.subrange(0, i as int)[m] == k);
                            assert(old_ids.contains(k));
                            let j = choose|j: int| 0 <= j < old_ids.len() && old_ids[j] == k;
                            if j < p {
                                assert(ids[j] == k);
                            } else {
                                assert(ids[j + 1] == k);
                            }
                        } else {
                            assert(ids[p as int] == k);
                        }
                    }
                }
                assert forall|j: int| 0 <= j < r@.len() implies {
                    let q = #[trigger] r@[j];
                    &&& self.pots_by_id@.contains_key(q.id@)
                    &&& q.deployed_by == self.pots_by_id@[q.id@].deployed_by
                    &&& q.deployed_at_ms == self.pots_by_id@[q.id@].deployed_at_ms
                } by {
                    if j < p {
                        assert(r@[j] == before[j]);
                    } else if j > p {
                        assert(r@[j] == before[j - 1]);
                    }
                }
            }
            i += 1;
        }
        assert(order.subrange(0, order.len() as int) =~= order);
        r
    }
}

/// A deployment that fails is undone: when `deploy_pot` added the record of a
/// pot that was not there, and `deploy_pot_callback` then reports the failure
/// for it, the factory holds the pot records it held before, and the signer
/// got back the whole attached deposit (the excess from `deploy_pot`, the
/// required deposit from the callback).
pub proof fn lemma_failed_deployment_undone(
    before: Map<Seq<char>, Pot>,
    pot_id: Seq<char>,
    pot: Pot,
    attached_deposit: u128,
    total_required_deposit: u128,
)
    requires
        !before.contains_key(pot_id),
        total_required_deposit <= attached_deposit,
    ensures
        before.insert(pot_id, pot).remove(pot_id) == before,
        (if attached_deposit > total_required_deposit { attached_deposit - total_required_deposit } else { 0int })
            + total_required_deposit == attached_deposit,
{
    assert(before.insert(pot_id, pot).remove(pot_id) =~= before);
}

} // verus!
