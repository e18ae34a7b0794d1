use paxi_pioneers::contract::{execute, get_sent_upaxi, instantiate, mint_internal, unpause};
use paxi_pioneers::error::ContractError;
use paxi_pioneers::msg::{Coin, ExecuteMsg, InstantiateMsg, Response};
use paxi_pioneers::state::Config;

const PRICE: u128 = 10_000_000;

fn fresh(base_uri: &str) -> (Config, u64, String, String) {
    let admin = "admin_addr".to_string();
    let contract = "contract_addr".to_string();
    let msg = InstantiateMsg {
        base_token_uri: base_uri.to_string(),
        provenance_hash: None,
    };
    let (cfg, supply) = instantiate(&admin, &contract, msg);
    (cfg, supply, admin, contract)
}

fn upaxi(amount: u128) -> Vec<Coin> {
    vec![Coin {
        denom: "upaxi".to_string(),
        amount,
    }]
}

fn active(base_uri: &str) -> (Config, u64, String, String) {
    let (mut cfg, supply, admin, contract) = fresh(base_uri);
    unpause(&mut cfg, &admin).unwrap();
    (cfg, supply, admin, contract)
}

#[test]
fn mint_succeeds_for_every_quantity_in_bounds() {
    for quantity in 1u64..=10 {
        let (cfg, mut supply, _, _) = active("ipfs://q/");
        let buyer = "buyer".to_string();
        let funds = upaxi(PRICE * quantity as u128);
        let commands = mint_internal(&cfg, &mut supply, &buyer, &funds, quantity).unwrap();
        assert_eq!(supply, quantity);
        assert_eq!(commands.len(), quantity as usize);
        for (i, cmd) in commands.iter().enumerate() {
            assert_eq!(cmd.token_id, format!("{}", i + 1));
            assert_eq!(cmd.token_uri, format!("ipfs://q/{}", i + 1));
            assert_eq!(cmd.owner, "buyer");
            assert_eq!(cmd.minter, "contract_addr");
        }
    }
}

#[test]
fn mint_quantity_zero_or_eleven_fails() {
    let (cfg, mut supply, _, _) = active("ipfs://q/");
    let buyer = "buyer".to_string();
    // Correct payment does not help: the quantity rule is checked first.
    let r = mint_internal(&cfg, &mut supply, &buyer, &upaxi(0), 0);
    assert_eq!(r.unwrap_err(), ContractError::InvalidQuantity);
    let r = mint_internal(&cfg, &mut supply, &buyer, &upaxi(PRICE * 11), 11);
    assert_eq!(r.unwrap_err(), ContractError::InvalidQuantity);
    assert_eq!(supply, 0);
}

#[test]
fn mint_while_paused_fails() {
    let (cfg, mut supply, _, _) = fresh("ipfs://q/");
    assert!(cfg.paused);
    let buyer = "buyer".to_string();
    let r = mint_internal(&cfg, &mut supply, &buyer, &upaxi(PRICE * 2), 2);
    assert_eq!(r.unwrap_err(), ContractError::Paused);
    assert_eq!(supply, 0);
}

#[test]
fn mint_with_wrong_payment_fails_and_mutates_nothing() {
    let (cfg, mut supply, _, _) = active("ipfs://q/");
    let buyer = "buyer".to_string();
    // Underpayment.
    let r = mint_internal(&cfg, &mut supply, &buyer, &upaxi(PRICE * 2 - 1), 2);
    assert_eq!(r.unwrap_err(), ContractError::InvalidPayment);
    // Overpayment.
    let r = mint_internal(&cfg, &mut supply, &buyer, &upaxi(PRICE * 2 + 1), 2);
    assert_eq!(r.unwrap_err(), ContractError::InvalidPayment);
    // No payment at all.
    let r = mint_internal(&cfg, &mut supply, &buyer, &Vec::new(), 2);
    assert_eq!(r.unwrap_err(), ContractError::InvalidPayment);
    assert_eq!(supply, 0);
}

#[test]
fn other_denominations_do_not_count_toward_payment() {
    let (cfg, mut supply, _, _) = active("ipfs://q/");
    let buyer = "buyer".to_string();
    // The right amount in the wrong denomination is no payment.
    let funds = vec![Coin {
        denom: "uatom".to_string(),
        amount: PRICE,
    }];
    let r = mint_internal(&cfg, &mut supply, &buyer, &funds, 1);
    assert_eq!(r.unwrap_err(), ContractError::InvalidPayment);
    // Alongside the designated denomination, others are ignored.
    let funds = vec![
        Coin {
            denom: "uatom".to_string(),
            amount: 5,
        },
        Coin {
            denom: "upaxi".to_string(),
            amount: PRICE,
        },
    ];
    let commands = mint_internal(&cfg, &mut supply, &buyer, &funds, 1).unwrap();
    assert_eq!(commands.len(), 1);
    assert_eq!(supply, 1);
}

#[test]
fn sent_amount_takes_the_first_matching_coin() {
    assert_eq!(get_sent_upaxi(&Vec::new()), 0);
    let funds = vec![
        Coin {
            denom: "uatom".to_string(),
            amount: 9,
        },
        Coin {
            denom: "upaxi".to_string(),
            amount: 5,
        },
        Coin {
            denom: "upaxi".to_string(),
            amount: 7,
        },
    ];
    assert_eq!(get_sent_upaxi(&funds), 5);
}

#[test]
fn mint_past_the_cap_fails_atomically() {
    let (cfg, _, _, _) = active("ipfs://q/");
    let buyer = "buyer".to_string();
    // 9_995 of 10_000 minted: a batch of 6 does not fit, even though 5 would.
    let mut supply: u64 = 9_995;
    let r = mint_internal(&cfg, &mut supply, &buyer, &upaxi(PRICE * 6), 6);
    assert_eq!(r.unwrap_err(), ContractError::MaxSupply);
    assert_eq!(supply, 9_995);
    // A batch of exactly the remaining headroom fits.
    let commands = mint_internal(&cfg, &mut supply, &buyer, &upaxi(PRICE * 5), 5).unwrap();
    assert_eq!(supply, 10_000);
    assert_eq!(commands[0].token_id, "9996");
    assert_eq!(commands[4].token_id, "10000");
    // The collection is exhausted.
    let r = mint_internal(&cfg, &mut supply, &buyer, &upaxi(PRICE), 1);
    assert_eq!(r.unwrap_err(), ContractError::MaxSupply);
    assert_eq!(supply, 10_000);
}

#[test]
fn validation_order_is_quantity_pause_supply_payment() {
    let buyer = "buyer".to_string();
    // Quantity is checked before the pause state.
    let (cfg, mut supply, _, _) = fresh("ipfs://q/");
    let r = mint_internal(&cfg, &mut supply, &buyer, &Vec::new(), 0);
    assert_eq!(r.unwrap_err(), ContractError::InvalidQuantity);
    // Pause is checked before supply and payment.
    let r = mint_internal(&cfg, &mut supply, &buyer, &Vec::new(), 1);
    assert_eq!(r.unwrap_err(), ContractError::Paused);
    // Supply is checked before payment.
    let (cfg, _, _, _) = active("ipfs://q/");
    let mut supply: u64 = 10_000;
    let r = mint_internal(&cfg, &mut supply, &buyer, &Vec::new(), 1);
    assert_eq!(r.unwrap_err(), ContractError::MaxSupply);
}

#[test]
fn scenario_paused_then_unpause_then_mint_two() {
    let admin = "admin_addr".to_string();
    let contract = "contract_addr".to_string();
    let buyer = "alice".to_string();
    let msg = InstantiateMsg {
        base_token_uri: "ipfs://x/".to_string(),
        provenance_hash: None,
    };
    let (mut cfg, mut supply) = instantiate(&admin, &contract, msg);
    assert_eq!(cfg.price, 10_000_000);

    // Minting 2 for 20_000_000 while paused fails.
    let funds = upaxi(20_000_000);
    let r = execute(
        &mut cfg,
        &mut supply,
        &buyer,
        &funds,
        ExecuteMsg::PublicBatchMint { quantity: 2 },
    );
    assert_eq!(r.unwrap_err(), ContractError::Paused);
    assert_eq!(supply, 0);

    // Unpausing as admin succeeds.
    let r = execute(
        &mut cfg,
        &mut supply,
        &admin,
        &Vec::new(),
        ExecuteMsg::UnpauseMint {},
    );
    assert!(matches!(r.unwrap(), Response::Updated));

    // The retry succeeds: supply becomes 2, ids "1" and "2" with derived URIs.
    let r = execute(
        &mut cfg,
        &mut supply,
        &buyer,
        &funds,
        ExecuteMsg::PublicBatchMint { quantity: 2 },
    );
    match r.unwrap() {
        Response::Minted { commands } => {
            assert_eq!(commands.len(), 2);
            assert_eq!(commands[0].token_id, "1");
            assert_eq!(commands[1].token_id, "2");
            assert_eq!(commands[0].token_uri, "ipfs://x/1");
            assert_eq!(commands[1].token_uri, "ipfs://x/2");
            assert_eq!(commands[0].owner, "alice");
            assert_eq!(commands[0].minter, "contract_addr");
        }
        other => panic!("expected mint commands, got {:?}", other),
    }
    assert_eq!(supply, 2);
}

#[test]
fn public_mint_is_a_batch_of_one() {
    let (mut cfg, mut supply, _, _) = active("ipfs://q/");
    let buyer = "buyer".to_string();
    let r = execute(
        &mut cfg,
        &mut supply,
        &buyer,
        &upaxi(PRICE),
        ExecuteMsg::PublicMint {},
    );
    match r.unwrap() {
        Response::Minted { commands } => {
            assert_eq!(commands.len(), 1);
            assert_eq!(commands[0].token_id, "1");
        }
        other => panic!("expected mint commands, got {:?}", other),
    }
    assert_eq!(supply, 1);
}
