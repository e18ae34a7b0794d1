//! The collection core: authorization, mint validation and effects,
//! administrative updates, and read-only projections.
//!
//! Every function here is pure over plain values. The host loads the
//! [`Config`] record and the supply counter, calls in, persists what comes
//! back, and carries out the returned effect (ledger mint instructions or a
//! balance transfer). Validation happens before any mutation, so a rejected
//! request changes nothing.

use vstd::arithmetic::div_mod::{
    lemma_div_is_ordered, lemma_div_multiples_vanish, lemma_div_pos_is_pos,
    lemma_fundamental_div_mod, lemma_fundamental_div_mod_converse,
    lemma_mod_division_less_than_divisor,
};
use vstd::arithmetic::mul::{lemma_mul_is_commutative, lemma_mul_inequality};
use vstd::prelude::*;
use vstd::string::StringExecFns;

use crate::digits::{dec_str, u64_to_dec};
use crate::error::ContractError;
use crate::msg::{
    BankSend, Coin, ConfigResponse, ExecuteMsg, InstantiateMsg, MintCommand, QueryAnswer,
    QueryMsg, Response, RoyaltiesInfoResponse,
};
use crate::state::{Config, MAX_MINT_QUANTITY, MAX_SUPPLY, PRICE_UPAXI, ROYALTY_BPS};

verus! {

/// The designated payment denomination.
pub open spec fn pay_denom() -> Seq<char> {
    "upaxi"@
}

/// The amount of the designated payment denomination among the attached
/// funds: the amount of the first matching coin, or zero if none matches.
/// Funds in any other denomination are ignored.
pub open spec fn upaxi_sent(funds: Seq<Coin>) -> u128
    decreases funds.len(),
{
    if funds.len() == 0 {
        0
    } else if funds[0].denom@ == pay_denom() {
        funds[0].amount
    } else {
        upaxi_sent(funds.skip(1))
    }
}

/// Extracts the attached payment in the designated denomination.
pub fn get_sent_upaxi(funds: &Vec<Coin>) -> (amount: u128)
    ensures
        amount == upaxi_sent(funds@),
{
    let needle = String::from_str("upaxi");
    let n = funds.len();
    let mut i: usize = 0;
    proof {
        assert(funds@.skip(0) =~= funds@);
    }
    while i < n
        invariant
            n == funds@.len(),
            i <= n,
            needle@ == pay_denom(),
            upaxi_sent(funds@) == upaxi_sent(funds@.skip(i as int)),
        decreases n - i,
    {
        if funds[i].denom == needle {
            proof {
                assert(funds@.skip(i as int)[0] == funds@[i as int]);
            }
            return funds[i].amount;
        }
        proof {
            assert(funds@.skip(i as int).skip(1) =~= funds@.skip(i as int + 1));
        }
        i = i + 1;
    }
    0
}

/// Succeeds exactly when the caller is the configured admin.
pub fn ensure_admin(cfg: &Config, sender: &String) -> (r: Result<(), ContractError>)
    ensures
        r is Ok <==> sender@ == cfg.admin@,
        r is Err ==> r->Err_0 == ContractError::Unauthorized,
{
    if *sender == cfg.admin {
        Ok(())
    } else {
        Err(ContractError::Unauthorized)
    }
}

/// Succeeds exactly when public minting is not paused.
pub fn must_active(cfg: &Config) -> (r: Result<(), ContractError>)
    ensures
        r is Ok <==> !cfg.paused,
        r is Err ==> r->Err_0 == ContractError::Paused,
{
    if cfg.paused {
        Err(ContractError::Paused)
    } else {
        Ok(())
    }
}

/// Builds the initial collection state for the given initializing caller
/// (who becomes admin and royalty receiver) and the system's own address
/// (which becomes the fixed minter identity). The collection starts paused
/// with an empty supply counter; price, supply cap and royalty rate are
/// fixed for the lifetime of the instance.
pub fn instantiate(sender: &String, contract_address: &String, msg: InstantiateMsg) -> (r: (
    Config,
    u64,
))
    requires
        sender@.len() > 0,
    ensures
        r.0.wf(),
        r.0.admin@ == sender@,
        r.0.minter@ == contract_address@,
        r.0.price == PRICE_UPAXI,
        r.0.max_supply == MAX_SUPPLY,
        r.0.paused,
        r.0.base_uri@ == msg.base_token_uri@,
        r.0.provenance_hash == msg.provenance_hash,
        r.0.royalty_bps == ROYALTY_BPS,
        r.0.royalty_receiver@ == sender@,
        r.1 == 0,
{
    let cfg = Config {
        admin: sender.clone(),
        minter: contract_address.clone(),
        price: PRICE_UPAXI,
        max_supply: MAX_SUPPLY,
        paused: true,
        base_uri: msg.base_token_uri,
        provenance_hash: msg.provenance_hash,
        royalty_bps: ROYALTY_BPS,
        royalty_receiver: sender.clone(),
    };
    (cfg, 0)
}

/// The system's own address, as recorded at initialization.
pub fn env_address(cfg: &Config) -> (r: String)
    ensures
        r@ == cfg.minter@,
{
    cfg.minter.clone()
}

/// The royalty owed on a sale: `sale_price * bps / 10_000`, truncated.
pub open spec fn royalty_of(sale_price: u128, bps: u64) -> int {
    (sale_price as int) * (bps as int) / 10_000
}

/// Splitting the dividend by `10_000` computes the same truncated product
/// share without ever needing more than 128 bits: the high part
/// `(p / 10_000) * bps` stays at or below `p` whenever `bps <= 10_000`.
proof fn lemma_royalty_split(p: int, bps: int)
    requires
        0 <= p,
        0 <= bps <= 10_000,
    ensures
        (p / 10_000) * bps + ((p % 10_000) * bps) / 10_000 == (p * bps) / 10_000,
        (p * bps) / 10_000 <= p,
        (p / 10_000) * bps <= (p * bps) / 10_000,
{
    let q = p / 10_000;
    let rm = p % 10_000;
    let t = rm * bps;
    lemma_fundamental_div_mod(p, 10_000);
    lemma_fundamental_div_mod(t, 10_000);
    lemma_mod_division_less_than_divisor(p, 10_000);
    lemma_mod_division_less_than_divisor(t, 10_000);
    assert(p * bps == 10_000 * (q * bps + t / 10_000) + t % 10_000) by (nonlinear_arith)
        requires
            p == 10_000 * q + rm,
            t == rm * bps,
            t == 10_000 * (t / 10_000) + t % 10_000,
    ;
    lemma_fundamental_div_mod_converse(p * bps, 10_000, q * bps + t / 10_000, t % 10_000);
    // The result never exceeds the sale price.
    lemma_mul_inequality(bps, 10_000, p);
    lemma_mul_is_commutative(p, bps);
    lemma_mul_is_commutative(p, 10_000);
    lemma_div_is_ordered(p * bps, 10_000 * p, 10_000);
    lemma_div_multiples_vanish(p, 10_000);
    // The high part alone never exceeds the result.
    assert(0 <= rm * bps) by (nonlinear_arith)
        requires
            0 <= rm,
            0 <= bps,
    ;
    lemma_div_pos_is_pos(t, 10_000);
}

/// Computes the truncated royalty share `sale_price * bps / 10_000`
/// without overflowing, for any sale price.
pub fn royalty_amount(sale_price: u128, bps: u64) -> (r: u128)
    requires
        bps <= 10_000,
    ensures
        r == royalty_of(sale_price, bps),
        r <= sale_price,
{
    proof {
        lemma_royalty_split(sale_price as int, bps as int);
    }
    let q = sale_price / 10_000;
    let rm = sale_price % 10_000;
    proof {
        assert((rm as int) * (bps as int) < 100_000_000) by (nonlinear_arith)
            requires
                rm < 10_000,
                bps <= 10_000,
        ;
    }
    q * (bps as u128) + (rm * (bps as u128)) / 10_000
}

/// Mint validation, in the order the design fixes (first violated rule
/// wins): quantity bounds, pause state, supply headroom, exact payment.
/// `None` means the request is accepted.
pub open spec fn mint_check(cfg: Config, supply: u64, quantity: u64, paid: u128) -> Option<
    ContractError,
> {
    if quantity == 0 || quantity > MAX_MINT_QUANTITY {
        Some(ContractError::InvalidQuantity)
    } else if cfg.paused {
        Some(ContractError::Paused)
    } else if supply + quantity > cfg.max_supply {
        Some(ContractError::MaxSupply)
    } else if paid != cfg.price * (quantity as u128) {
        Some(ContractError::InvalidPayment)
    } else {
        None
    }
}

/// What one ledger instruction of an accepted mint must say: created under
/// the system's own minter identity, owned by the requesting caller, with
/// the sequential id rendered in decimal and the metadata path derived from
/// the configured base path.
pub open spec fn command_matches(cmd: MintCommand, cfg: Config, id: nat, owner: Seq<char>) -> bool {
    &&& cmd.minter@ == cfg.minter@
    &&& cmd.owner@ == owner
    &&& cmd.token_id@ == dec_str(id)
    &&& cmd.token_uri@ == cfg.base_uri@ + dec_str(id)
}

/// Validates a mint request and, if it is accepted, advances the supply
/// counter by the full quantity and returns the ledger instructions for
/// every token in the batch — ids `supply + 1 ..= supply + quantity`. A
/// rejected request returns the first violated rule's error and changes
/// nothing. All or nothing: the counter never runs ahead of the
/// instructions handed back.
pub fn mint_internal(
    cfg: &Config,
    supply: &mut u64,
    sender: &String,
    funds: &Vec<Coin>,
    quantity: u64,
) -> (r: Result<Vec<MintCommand>, ContractError>)
    requires
        cfg.wf(),
        *old(supply) <= cfg.max_supply,
    ensures
        r is Err <==> mint_check(*cfg, *old(supply), quantity, upaxi_sent(funds@)) is Some,
        r is Err ==> Some(r->Err_0) == mint_check(*cfg, *old(supply), quantity, upaxi_sent(funds@))
            && *final(supply) == *old(supply),
        r is Ok ==> *final(supply) == *old(supply) + quantity,
        r is Ok ==> r->Ok_0@.len() == quantity,
        r is Ok ==> forall|i: int|
            0 <= i < quantity ==> command_matches(
                #[trigger] r->Ok_0@[i],
                *cfg,
                (*old(supply) + i + 1) as nat,
                sender@,
            ),
        *old(supply) <= *final(supply) <= cfg.max_supply,
{
    if quantity == 0 || quantity > MAX_MINT_QUANTITY {
        return Err(ContractError::InvalidQuantity);
    }
    if let Err(e) = must_active(cfg) {
        return Err(e);
    }
    let start = *supply;
    if start + quantity > cfg.max_supply {
        return Err(ContractError::MaxSupply);
    }
    proof {
        lemma_mul_inequality(quantity as int, MAX_MINT_QUANTITY as int, cfg.price as int);
        lemma_mul_is_commutative(cfg.price as int, quantity as int);
        lemma_mul_is_commutative(cfg.price as int, MAX_MINT_QUANTITY as int);
    }
    let required = cfg.price * (quantity as u128);
    let paid = get_sent_upaxi(funds);
    if paid != required {
        return Err(ContractError::InvalidPayment);
    }

    let mut commands: Vec<MintCommand> = Vec::new();
    let mut i: u64 = 0;
    while i < quantity
        invariant
            i <= quantity,
            start + quantity <= cfg.max_supply,
            commands@.len() == i,
            forall|j: int|
                0 <= j < i ==> command_matches(
                    #[trigger] commands@[j],
                    *cfg,
                    (start + j + 1) as nat,
                    sender@,
                ),
        decreases quantity - i,
    {
        let id = start + i + 1;
        let token_id = u64_to_dec(id);
        let token_uri = cfg.base_uri.clone().concat(token_id.as_str());
        commands.push(
            MintCommand {
                minter: cfg.minter.clone(),
                token_id,
                owner: sender.clone(),
                token_uri,
            },
        );
        i = i + 1;
    }
    *supply = start + quantity;
    Ok(commands)
}

/// Disables public minting. Admin only; a non-admin caller is rejected and
/// nothing changes.
pub fn pause(cfg: &mut Config, sender: &String) -> (r: Result<(), ContractError>)
    ensures
        r is Ok <==> sender@ == old(cfg).admin@,
        r is Err ==> r->Err_0 == ContractError::Unauthorized && *final(cfg) == *old(cfg),
        r is Ok ==> *final(cfg) == (Config { paused: true, ..*old(cfg) }),
{
    match ensure_admin(cfg, sender) {
        Err(e) => Err(e),
        Ok(()) => {
            cfg.paused = true;
            Ok(())
        },
    }
}

/// Enables public minting. Admin only; a non-admin caller is rejected and
/// nothing changes.
pub fn unpause(cfg: &mut Config, sender: &String) -> (r: Result<(), ContractError>)
    ensures
        r is Ok <==> sender@ == old(cfg).admin@,
        r is Err ==> r->Err_0 == ContractError::Unauthorized && *final(cfg) == *old(cfg),
        r is Ok ==> *final(cfg) == (Config { paused: false, ..*old(cfg) }),
{
    match ensure_admin(cfg, sender) {
        Err(e) => Err(e),
        Ok(()) => {
            cfg.paused = false;
            Ok(())
        },
    }
}

/// Replaces the metadata base path verbatim. Admin only; a non-admin caller
/// is rejected and nothing changes.
pub fn update_base_uri(cfg: &mut Config, sender: &String, base_uri: String) -> (r: Result<
    (),
    ContractError,
>)
    ensures
        r is Ok <==> sender@ == old(cfg).admin@,
        r is Err ==> r->Err_0 == ContractError::Unauthorized && *final(cfg) == *old(cfg),
        r is Ok ==> *final(cfg) == (Config { base_uri: base_uri, ..*old(cfg) }),
{
    match ensure_admin(cfg, sender) {
        Err(e) => Err(e),
        Ok(()) => {
            cfg.base_uri = base_uri;
            Ok(())
        },
    }
}

/// Commits the provenance fingerprint. Admin only; a non-admin caller is
/// rejected and nothing changes.
pub fn set_provenance(cfg: &mut Config, sender: &String, hash: String) -> (r: Result<
    (),
    ContractError,
>)
    ensures
        r is Ok <==> sender@ == old(cfg).admin@,
        r is Err ==> r->Err_0 == ContractError::Unauthorized && *final(cfg) == *old(cfg),
        r is Ok ==> *final(cfg) == (Config { provenance_hash: Some(hash), ..*old(cfg) }),
{
    match ensure_admin(cfg, sender) {
        Err(e) => Err(e),
        Ok(()) => {
            cfg.provenance_hash = Some(hash);
            Ok(())
        },
    }
}

/// Decides a withdrawal: admin only. The returned instruction tells the
/// host to send the system's entire live holding of the payment currency to
/// the admin — the live balance, not a tracked total, so funds sent to the
/// system's account outside of minting are withdrawable too.
pub fn withdraw(cfg: &Config, sender: &String) -> (r: Result<BankSend, ContractError>)
    ensures
        r is Ok <==> sender@ == cfg.admin@,
        r is Err ==> r->Err_0 == ContractError::Unauthorized,
        r is Ok ==> r->Ok_0.to_address@ == cfg.admin@ && r->Ok_0.denom@ == pay_denom(),
{
    match ensure_admin(cfg, sender) {
        Err(e) => Err(e),
        Ok(()) => Ok(
            BankSend { to_address: cfg.admin.clone(), denom: String::from_str("upaxi") },
        ),
    }
}

/// What an accepted or rejected mint request leaves behind: on rejection
/// the first violated rule's error and an unchanged counter; on acceptance
/// a counter advanced by exactly `quantity` and one well-formed ledger
/// instruction per token, ids consecutive from the old counter value.
pub open spec fn mint_transition(
    cfg: Config,
    supply_before: u64,
    supply_after: u64,
    sender: Seq<char>,
    paid: u128,
    quantity: u64,
    r: Result<Response, ContractError>,
) -> bool {
    match mint_check(cfg, supply_before, quantity, paid) {
        Some(e) => r == Err::<Response, ContractError>(e) && supply_after == supply_before,
        None => {
            &&& supply_after == supply_before + quantity
            &&& (r matches Ok(Response::Minted { commands }) && commands@.len() == quantity
                && forall|i: int|
                    0 <= i < quantity ==> command_matches(
                        #[trigger] commands@[i],
                        cfg,
                        (supply_before + i + 1) as nat,
                        sender,
                    ))
        },
    }
}

/// What an admin-only configuration update leaves behind: performed
/// verbatim for the admin, rejected with `Unauthorized` and no state change
/// for anyone else.
pub open spec fn admin_update_transition(
    cfg_before: Config,
    cfg_after: Config,
    sender: Seq<char>,
    updated: Config,
    r: Result<Response, ContractError>,
) -> bool {
    if sender == cfg_before.admin@ {
        r == Ok::<Response, ContractError>(Response::Updated) && cfg_after == updated
    } else {
        r == Err::<Response, ContractError>(ContractError::Unauthorized) && cfg_after == cfg_before
    }
}

/// What a withdrawal request leaves behind: for the admin, an instruction
/// to send the full live holding of the payment currency to the admin; for
/// anyone else, `Unauthorized`. Configuration and counter never change.
pub open spec fn withdraw_transition(
    cfg: Config,
    sender: Seq<char>,
    r: Result<Response, ContractError>,
) -> bool {
    if sender == cfg.admin@ {
        r matches Ok(Response::Withdrawal { send }) && send.to_address@ == cfg.admin@
            && send.denom@ == pay_denom()
    } else {
        r == Err::<Response, ContractError>(ContractError::Unauthorized)
    }
}

/// Decides one mutating request against the current state. Admin-only
/// requests pass the authorization guard first; minting passes the mint
/// validation. On any error the state is exactly as it was.
pub fn execute(
    cfg: &mut Config,
    supply: &mut u64,
    sender: &String,
    funds: &Vec<Coin>,
    msg: ExecuteMsg,
) -> (r: Result<Response, ContractError>)
    requires
        old(cfg).wf(),
        *old(supply) <= old(cfg).max_supply,
    ensures
        final(cfg).wf(),
        *old(supply) <= *final(supply) <= final(cfg).max_supply,
        r is Err ==> *final(cfg) == *old(cfg) && *final(supply) == *old(supply),
        match msg {
            ExecuteMsg::PublicMint {  } => *final(cfg) == *old(cfg) && mint_transition(
                *old(cfg),
                *old(supply),
                *final(supply),
                sender@,
                upaxi_sent(funds@),
                1,
                r,
            ),
            ExecuteMsg::PublicBatchMint { quantity } => *final(cfg) == *old(cfg)
                && mint_transition(
                *old(cfg),
                *old(supply),
                *final(supply),
                sender@,
                upaxi_sent(funds@),
                quantity,
                r,
            ),
            ExecuteMsg::Withdraw {  } => *final(cfg) == *old(cfg) && *final(supply) == *old(
                supply,
            ) && withdraw_transition(*old(cfg), sender@, r),
            ExecuteMsg::PauseMint {  } => *final(supply) == *old(supply)
                && admin_update_transition(
                *old(cfg),
                *final(cfg),
                sender@,
                (Config { paused: true, ..*old(cfg) }),
                r,
            ),
            ExecuteMsg::UnpauseMint {  } => *final(supply) == *old(supply)
                && admin_update_transition(
                *old(cfg),
                *final(cfg),
                sender@,
                (Config { paused: false, ..*old(cfg) }),
                r,
            ),
            ExecuteMsg::UpdateBaseUri { base_uri } => *final(supply) == *old(supply)
                && admin_update_transition(
                *old(cfg),
                *final(cfg),
                sender@,
                (Config { base_uri: base_uri, ..*old(cfg) }),
                r,
            ),
            ExecuteMsg::SetProvenanceHash { hash } => *final(supply) == *old(supply)
                && admin_update_transition(
                *old(cfg),
                *final(cfg),
                sender@,
                (Config { provenance_hash: Some(hash), ..*old(cfg) }),
                r,
            ),
        },
{
    match msg {
        ExecuteMsg::PublicMint {  } => match mint_internal(cfg, supply, sender, funds, 1) {
            Ok(commands) => Ok(Response::Minted { commands }),
            Err(e) => Err(e),
        },
        ExecuteMsg::PublicBatchMint { quantity } => match mint_internal(
            cfg,
            supply,
            sender,
            funds,
            quantity,
        ) {
            Ok(commands) => Ok(Response::Minted { commands }),
            Err(e) => Err(e),
        },
        ExecuteMsg::Withdraw {  } => match withdraw(cfg, sender) {
            Ok(send) => Ok(Response::Withdrawal { send }),
            Err(e) => Err(e),
        },
        ExecuteMsg::PauseMint {  } => match pause(cfg, sender) {
            Ok(()) => Ok(Response::Updated),
            Err(e) => Err(e),
        },
        ExecuteMsg::UnpauseMint {  } => match unpause(cfg, sender) {
            Ok(()) => Ok(Response::Updated),
            Err(e) => Err(e),
        },
        ExecuteMsg::UpdateBaseUri { base_uri } => match update_base_uri(cfg, sender, base_uri) {
            Ok(()) => Ok(Response::Updated),
            Err(e) => Err(e),
        },
        ExecuteMsg::SetProvenanceHash { hash } => match set_provenance(cfg, sender, hash) {
            Ok(()) => Ok(Response::Updated),
            Err(e) => Err(e),
        },
    }
}

/// What the configuration projection must report: every configuration
/// field verbatim, plus the current supply counter.
pub open spec fn reflects_config(resp: ConfigResponse, cfg: Config, supply: u64) -> bool {
    &&& resp.admin@ == cfg.admin@
    &&& resp.minter@ == cfg.minter@
    &&& resp.price == cfg.price
    &&& resp.max_supply == cfg.max_supply
    &&& resp.paused == cfg.paused
    &&& resp.base_uri@ == cfg.base_uri@
    &&& resp.provenance_hash == cfg.provenance_hash
    &&& resp.royalty_bps == cfg.royalty_bps
    &&& resp.royalty_receiver@ == cfg.royalty_receiver@
    &&& resp.total_minted == supply
}

/// Clones an optional string by value.
fn clone_opt_string(o: &Option<String>) -> (r: Option<String>)
    ensures
        r == *o,
{
    match o {
        None => None,
        Some(s) => Some(s.clone()),
    }
}

/// Answers one read request. Pure and side-effect free: the royalty answer
/// is the truncated basis-point share of the sale price for the configured
/// receiver (the token id does not affect it), and the configuration answer
/// reports every field plus the supply counter.
pub fn query(cfg: &Config, supply: u64, msg: QueryMsg) -> (r: QueryAnswer)
    requires
        cfg.wf(),
    ensures
        match msg {
            QueryMsg::RoyaltyInfo { token_id, sale_price } => r matches QueryAnswer::Royalties(
                info,
            ) && info.address@ == cfg.royalty_receiver@ && info.royalty_amount == royalty_of(
                sale_price,
                cfg.royalty_bps,
            ),
            QueryMsg::GetConfig {  } => r matches QueryAnswer::Config(resp) && reflects_config(
                resp,
                *cfg,
                supply,
            ),
        },
{
    match msg {
        QueryMsg::RoyaltyInfo { token_id: _, sale_price } => {
            let amount = royalty_amount(sale_price, cfg.royalty_bps);
            QueryAnswer::Royalties(
                RoyaltiesInfoResponse {
                    address: cfg.royalty_receiver.clone(),
                    royalty_amount: amount,
                },
            )
        },
        QueryMsg::GetConfig {  } => QueryAnswer::Config(
            ConfigResponse {
                admin: cfg.admin.clone(),
                minter: cfg.minter.clone(),
                price: cfg.price,
                max_supply: cfg.max_supply,
                paused: cfg.paused,
                base_uri: cfg.base_uri.clone(),
                provenance_hash: clone_opt_string(&cfg.provenance_hash),
                royalty_bps: cfg.royalty_bps,
                royalty_receiver: cfg.royalty_receiver.clone(),
                total_minted: supply,
            },
        ),
    }
}

/// A mint request with a quantity between one and the batch cap, made while
/// the collection is active, with supply headroom for the whole batch and
/// with exactly `price * quantity` attached, is accepted and advances the
/// supply counter by exactly `quantity`.
pub proof fn lemma_mint_valid_succeeds(
    cfg: Config,
    supply_before: u64,
    supply_after: u64,
    sender: Seq<char>,
    paid: u128,
    quantity: u64,
    r: Result<Response, ContractError>,
)
    requires
        1 <= quantity <= MAX_MINT_QUANTITY,
        !cfg.paused,
        supply_before + quantity <= cfg.max_supply,
        paid == cfg.price * (quantity as u128),
        mint_transition(cfg, supply_before, supply_after, sender, paid, quantity, r),
    ensures
        r is Ok,
        supply_after == supply_before + quantity,
{
}

/// A mint request for zero tokens or for more than the batch cap is
/// rejected with `InvalidQuantity` and changes nothing, regardless of
/// payment, pause state or supply.
pub proof fn lemma_mint_bad_quantity_fails(
    cfg: Config,
    supply_before: u64,
    supply_after: u64,
    sender: Seq<char>,
    paid: u128,
    quantity: u64,
    r: Result<Response, ContractError>,
)
    requires
        quantity == 0 || quantity > MAX_MINT_QUANTITY,
        mint_transition(cfg, supply_before, supply_after, sender, paid, quantity, r),
    ensures
        r == Err::<Response, ContractError>(ContractError::InvalidQuantity),
        supply_after == supply_before,
{
}

/// A mint request made while the collection is paused is rejected with
/// `Paused` and changes nothing, even with correct payment and available
/// supply.
pub proof fn lemma_mint_paused_fails(
    cfg: Config,
    supply_before: u64,
    supply_after: u64,
    sender: Seq<char>,
    paid: u128,
    quantity: u64,
    r: Result<Response, ContractError>,
)
    requires
        1 <= quantity <= MAX_MINT_QUANTITY,
        cfg.paused,
        mint_transition(cfg, supply_before, supply_after, sender, paid, quantity, r),
    ensures
        r == Err::<Response, ContractError>(ContractError::Paused),
        supply_after == supply_before,
{
}

/// A mint request that would push the supply counter past the supply cap
/// is rejected with `MaxSupply` and is fully atomic — no token instruction
/// is issued and the counter is unchanged — even if part of the batch would
/// have fit, and regardless of payment.
pub proof fn lemma_mint_over_cap_fails(
    cfg: Config,
    supply_before: u64,
    supply_after: u64,
    sender: Seq<char>,
    paid: u128,
    quantity: u64,
    r: Result<Response, ContractError>,
)
    requires
        1 <= quantity <= MAX_MINT_QUANTITY,
        !cfg.paused,
        supply_before + quantity > cfg.max_supply,
        mint_transition(cfg, supply_before, supply_after, sender, paid, quantity, r),
    ensures
        r == Err::<Response, ContractError>(ContractError::MaxSupply),
        supply_after == supply_before,
{
}

/// A mint request whose attached payment differs from `price * quantity` —
/// under- or over-payment alike — is rejected with `InvalidPayment` and
/// changes nothing.
pub proof fn lemma_mint_wrong_payment_fails(
    cfg: Config,
    supply_before: u64,
    supply_after: u64,
    sender: Seq<char>,
    paid: u128,
    quantity: u64,
    r: Result<Response, ContractError>,
)
    requires
        1 <= quantity <= MAX_MINT_QUANTITY,
        !cfg.paused,
        supply_before + quantity <= cfg.max_supply,
        paid != cfg.price * (quantity as u128),
        mint_transition(cfg, supply_before, supply_after, sender, paid, quantity, r),
    ensures
        r == Err::<Response, ContractError>(ContractError::InvalidPayment),
        supply_after == supply_before,
{
}

/// An admin-only configuration update invoked by a non-admin identity is
/// rejected with `Unauthorized` and produces no state change.
pub proof fn lemma_non_admin_update_rejected(
    cfg_before: Config,
    cfg_after: Config,
    sender: Seq<char>,
    updated: Config,
    r: Result<Response, ContractError>,
)
    requires
        sender != cfg_before.admin@,
        admin_update_transition(cfg_before, cfg_after, sender, updated, r),
    ensures
        r == Err::<Response, ContractError>(ContractError::Unauthorized),
        cfg_after == cfg_before,
{
}

/// A withdrawal invoked by a non-admin identity is rejected with
/// `Unauthorized`.
pub proof fn lemma_non_admin_withdraw_rejected(
    cfg: Config,
    sender: Seq<char>,
    r: Result<Response, ContractError>,
)
    requires
        sender != cfg.admin@,
        withdraw_transition(cfg, sender, r),
    ensures
        r == Err::<Response, ContractError>(ContractError::Unauthorized),
{
}

/// At the fixed default royalty rate, the royalty on any sale price is the
/// truncated 7.5% share `sale_price * 750 / 10_000`, whatever the token.
pub proof fn lemma_royalty_default_rate(sale_price: u128)
    ensures
        royalty_of(sale_price, ROYALTY_BPS) == (sale_price as int) * 750 / 10_000,
{
}

} // verus!

