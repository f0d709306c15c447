use cw721_base::decimal::decimal_string;
use cw721_base::{
    ContractError, Cw721ExtendedContract, ExecuteMsg, Outcome, QueryAnswer, QueryMsg, TokenStatus, ADDR_PRO, ADDR_TEAM, ADDR_TREAS,
    BASE_URI, NOT_YET_REVEALED, ROYALTY_ADDRESS,
};

const MINTER: &str = "minter";

fn s(x: &str) -> String {
    x.to_string()
}

fn fresh() -> Cw721ExtendedContract<String> {
    Cw721ExtendedContract::with_fixed_signers(s(MINTER))
}

fn sign_all(c: &mut Cw721ExtendedContract<String>) {
    assert_eq!(c.execute_sign(&s(ADDR_TEAM)), Ok(()));
    assert_eq!(c.execute_sign(&s(ADDR_PRO)), Ok(()));
    assert_eq!(c.execute_sign(&s(ADDR_TREAS)), Ok(()));
}

#[test]
fn free_mint_claims_pre_seeded_token_once() {
    let mut c = fresh();
    assert_eq!(c.execute_add_extension(&s(MINTER), s("3001"), s("E")), Ok(()));
    assert_eq!(c.execute_free_mint(&s(MINTER), s("O")), Ok(s("3001")));
    assert_eq!(c.freemint_count(), 1);
    assert_eq!(c.query_get_balance(&s("O")), 1);
    assert_eq!(c.query_get_balance(&s(MINTER)), 0);
    match c.token_status(&s("3001")) {
        Some(TokenStatus::Claimed { owner, token_uri }) => {
            assert_eq!(owner, "O");
            assert_eq!(*token_uri, format!("{}3001.json", BASE_URI));
        }
        _ => panic!("token 3001 should be claimed"),
    }
    assert_eq!(c.query_get_extension(&s("3001")), Some(&s("E")));
    assert_eq!(c.execute_free_mint(&s(MINTER), s("O")), Err(ContractError::FreeLimitExceeded {}));
    assert_eq!(c.execute_free_mint(&s(MINTER), s("P")), Err(ContractError::FreeLimitExceeded {}));
    assert_eq!(c.freemint_count(), 1);
}

#[test]
fn withdraw_splits_thousand_units() {
    let mut c = fresh();
    sign_all(&mut c);
    let transfers = c.execute_withdraw(1000).unwrap();
    assert_eq!(transfers.len(), 3);
    assert_eq!(transfers[0].to_address, ADDR_TEAM);
    assert_eq!(transfers[0].amount, 300);
    assert_eq!(transfers[1].to_address, ADDR_PRO);
    assert_eq!(transfers[1].amount, 140);
    assert_eq!(transfers[2].to_address, ADDR_TREAS);
    assert_eq!(transfers[2].amount, 560);
    assert_eq!(c.signatures(), (false, false, false));
}

#[test]
fn royalty_is_six_percent_to_fixed_payee() {
    let c = fresh();
    let r = c.query_royalties_info(&s("3001"), 1000);
    assert_eq!(r.address, ROYALTY_ADDRESS);
    assert_eq!(r.royalty_amount, 60);
    assert!(c.check_royalties());
}

#[test]
fn royalty_rounds_down_and_handles_extremes() {
    let c = fresh();
    assert_eq!(c.query_royalties_info(&s("1"), 0).royalty_amount, 0);
    assert_eq!(c.query_royalties_info(&s("1"), 16).royalty_amount, 0);
    assert_eq!(c.query_royalties_info(&s("1"), 17).royalty_amount, 1);
    assert_eq!(c.query_royalties_info(&s("1"), 999).royalty_amount, 59);
    assert_eq!(c.query_royalties_info(&s("1"), u128::MAX).royalty_amount, u128::MAX / 100 * 6 + (u128::MAX % 100) * 6 / 100);
}

#[test]
fn counter_stays_within_cap_over_many_calls() {
    let mut c = fresh();
    for i in 0..5u64 {
        let id = (3001 + i).to_string();
        let _ = c.execute_add_extension(&s(MINTER), id, s("E"));
        let _ = c.execute_free_mint(&s(MINTER), s("O"));
        assert!(c.freemint_count() <= 1);
    }
    assert_eq!(c.freemint_count(), 1);
    assert_eq!(c.query_get_balance(&s("O")), 1);
}

#[test]
fn pre_seed_twice_overwrites_extension() {
    let mut c = fresh();
    assert_eq!(c.execute_add_extension(&s(MINTER), s("3001"), s("first")), Ok(()));
    assert_eq!(c.execute_add_extension(&s(MINTER), s("3001"), s("second")), Ok(()));
    assert_eq!(c.query_get_extension(&s("3001")), Some(&s("second")));
    assert_eq!(c.execute_free_mint(&s(MINTER), s("O")), Ok(s("3001")));
    assert_eq!(c.query_get_extension(&s("3001")), Some(&s("second")));
}

#[test]
fn pre_seed_after_claim_fails() {
    let mut c = fresh();
    assert_eq!(c.execute_add_extension(&s(MINTER), s("3001"), s("E")), Ok(()));
    assert_eq!(c.execute_free_mint(&s(MINTER), s("O")), Ok(s("3001")));
    assert_eq!(c.execute_add_extension(&s(MINTER), s("3001"), s("F")), Err(ContractError::Claimed {}));
    assert_eq!(c.query_get_extension(&s("3001")), Some(&s("E")));
}

#[test]
fn claim_without_pre_seed_fails() {
    let mut c = fresh();
    assert_eq!(c.execute_free_mint(&s(MINTER), s("O")), Err(ContractError::CannotGetExtension {}));
    assert_eq!(c.execute_add_extension(&s(MINTER), s("3002"), s("E")), Ok(()));
    assert_eq!(c.execute_free_mint(&s(MINTER), s("O")), Err(ContractError::CannotGetExtension {}));
    assert_eq!(c.freemint_count(), 0);
    assert_eq!(c.query_get_balance(&s("O")), 0);
}

#[test]
fn second_claim_fails() {
    let mut c = fresh();
    assert_eq!(c.execute_add_extension(&s(MINTER), s("3001"), s("E")), Ok(()));
    assert_eq!(c.execute_free_mint(&s(MINTER), s("O")), Ok(s("3001")));
    assert!(c.execute_free_mint(&s(MINTER), s("O")).is_err());
}

#[test]
fn only_minter_mints_and_seeds() {
    let mut c = fresh();
    assert_eq!(c.execute_add_extension(&s("intruder"), s("3001"), s("E")), Err(ContractError::NotMinter {}));
    assert_eq!(c.query_get_extension(&s("3001")), None);
    assert_eq!(c.execute_add_extension(&s(MINTER), s("3001"), s("E")), Ok(()));
    assert_eq!(c.execute_free_mint(&s("intruder"), s("O")), Err(ContractError::NotMinter {}));
    assert_eq!(c.freemint_count(), 0);
}

#[test]
fn withdraw_requires_all_signatures() {
    let mut c = fresh();
    assert!(matches!(c.execute_withdraw(1000), Err(ContractError::NotAllSigned {})));
    assert_eq!(c.execute_sign(&s(ADDR_TEAM)), Ok(()));
    assert_eq!(c.execute_sign(&s(ADDR_PRO)), Ok(()));
    assert!(matches!(c.execute_withdraw(1000), Err(ContractError::NotAllSigned {})));
    assert_eq!(c.signatures(), (true, true, false));
    assert_eq!(c.execute_sign(&s(ADDR_TREAS)), Ok(()));
    assert!(c.execute_withdraw(1000).is_ok());
    assert!(matches!(c.execute_withdraw(1000), Err(ContractError::NotAllSigned {})));
}

#[test]
fn withdraw_leaves_rounding_in_pool() {
    let mut c = fresh();
    sign_all(&mut c);
    let t = c.execute_withdraw(99).unwrap();
    let amounts: Vec<u128> = t.iter().map(|x| x.amount).collect();
    assert_eq!(amounts, vec![29, 13, 55]);
    let total: u128 = amounts.iter().sum();
    assert!(total <= 99 && 99 - total <= 2);
    sign_all(&mut c);
    let zero: Vec<u128> = c.execute_withdraw(0).unwrap().iter().map(|x| x.amount).collect();
    assert_eq!(zero, vec![0, 0, 0]);
    sign_all(&mut c);
    let big: Vec<u128> = c.execute_withdraw(u128::MAX).unwrap().iter().map(|x| x.amount).collect();
    assert_eq!(big[2], u128::MAX / 100 * 56 + (u128::MAX % 100) * 56 / 100);
}

#[test]
fn signing_twice_is_signing_once() {
    let mut c = fresh();
    assert_eq!(c.execute_sign(&s(ADDR_PRO)), Ok(()));
    let once = c.signatures();
    assert_eq!(c.execute_sign(&s(ADDR_PRO)), Ok(()));
    assert_eq!(c.signatures(), once);
    assert_eq!(once, (false, true, false));
}

#[test]
fn non_signer_is_rejected() {
    let mut c = fresh();
    assert_eq!(c.execute_sign(&s(ADDR_TEAM)), Ok(()));
    assert_eq!(c.execute_sign(&s(MINTER)), Err(ContractError::NotSigner {}));
    assert_eq!(c.signatures(), (true, false, false));
}

#[test]
fn reveal_switches_token_uri() {
    let mut c = fresh();
    assert!(!c.query_is_on_reveal());
    assert_eq!(c.query_get_token_uri(&s("42")), NOT_YET_REVEALED);
    assert_eq!(c.execute_set_art_reveal(&s("intruder"), true), Err(ContractError::NotMinter {}));
    assert!(!c.query_is_on_reveal());
    assert_eq!(c.execute_set_art_reveal(&s(MINTER), true), Ok(()));
    assert!(c.query_is_on_reveal());
    assert_eq!(c.query_get_token_uri(&s("42")), format!("{}42.json", BASE_URI));
    assert_eq!(c.execute_set_art_reveal(&s(MINTER), false), Ok(()));
    assert_eq!(c.query_get_token_uri(&s("42")), NOT_YET_REVEALED);
}

#[test]
fn whitelist_add_and_remove() {
    let mut c = fresh();
    assert!(!c.check_is_on_whitelist(&s("alice")));
    assert_eq!(c.execute_add_whitelist(&s("intruder"), s("alice")), Err(ContractError::NotMinter {}));
    assert!(!c.check_is_on_whitelist(&s("alice")));
    assert_eq!(c.execute_add_whitelist(&s(MINTER), s("alice")), Ok(()));
    assert_eq!(c.execute_add_whitelist(&s(MINTER), s("alice")), Ok(()));
    assert!(c.check_is_on_whitelist(&s("alice")));
    assert!(!c.check_is_on_whitelist(&s("bob")));
    assert_eq!(c.execute_remove_whitelist(&s("intruder"), s("alice")), Err(ContractError::NotMinter {}));
    assert!(c.check_is_on_whitelist(&s("alice")));
    assert_eq!(c.execute_remove_whitelist(&s(MINTER), s("alice")), Ok(()));
    assert!(!c.check_is_on_whitelist(&s("alice")));
}

#[test]
fn execute_dispatches_each_action() {
    let mut c = fresh();
    let m = s(MINTER);
    assert!(matches!(
        c.execute(&m, ExecuteMsg::AddExtension { token_id: s("3001"), extension: s("E") }, 0),
        Ok(Outcome::Done)
    ));
    match c.execute(&m, ExecuteMsg::FreeMint { owner: s("O") }, 0) {
        Ok(Outcome::Minted { token_id }) => assert_eq!(token_id, "3001"),
        _ => panic!("free mint should succeed"),
    }
    assert!(matches!(c.execute(&m, ExecuteMsg::SetArtReveal { art_reveal: true }, 0), Ok(Outcome::Done)));
    assert!(matches!(c.execute(&m, ExecuteMsg::AddWhitelist { member: s("a") }, 0), Ok(Outcome::Done)));
    assert!(matches!(c.execute(&m, ExecuteMsg::RemoveWhitelist { member: s("a") }, 0), Ok(Outcome::Done)));
    assert!(matches!(c.execute(&m, ExecuteMsg::Sign {}, 0), Err(ContractError::NotSigner {})));
    assert!(matches!(c.execute(&m, ExecuteMsg::Withdraw {}, 500), Err(ContractError::NotAllSigned {})));
    for who in [ADDR_TEAM, ADDR_PRO, ADDR_TREAS] {
        assert!(matches!(c.execute(&s(who), ExecuteMsg::Sign {}, 0), Ok(Outcome::Done)));
    }
    match c.execute(&m, ExecuteMsg::Withdraw {}, 500) {
        Ok(Outcome::Paid { transfers }) => {
            let amounts: Vec<u128> = transfers.iter().map(|t| t.amount).collect();
            assert_eq!(amounts, vec![150, 70, 280]);
        }
        _ => panic!("withdraw should succeed"),
    }
}

#[test]
fn custom_signers_are_respected() {
    let mut c: Cw721ExtendedContract<String> = Cw721ExtendedContract::new(s(MINTER), s("a"), s("b"), s("c"));
    assert_eq!(c.execute_sign(&s(ADDR_TEAM)), Err(ContractError::NotSigner {}));
    assert_eq!(c.execute_sign(&s("a")), Ok(()));
    assert_eq!(c.execute_sign(&s("b")), Ok(()));
    assert_eq!(c.execute_sign(&s("c")), Ok(()));
    let t = c.execute_withdraw(10).unwrap();
    assert_eq!(t[0].to_address, "a");
    assert_eq!(t[0].amount, 3);
    assert_eq!(t[1].amount, 1);
    assert_eq!(t[2].amount, 5);
}

#[test]
fn decimal_string_writes_digits() {
    assert_eq!(decimal_string(0), "0");
    assert_eq!(decimal_string(7), "7");
    assert_eq!(decimal_string(3001), "3001");
    assert_eq!(decimal_string(u64::MAX), u64::MAX.to_string());
}

#[test]
fn extension_query_of_unknown_id_is_none() {
    let c = fresh();
    assert_eq!(c.query_get_extension(&s("9999")), None);
    assert!(c.token_status(&s("9999")).is_none());
}

#[test]
fn query_answers_each_question() {
    let mut c = fresh();
    assert_eq!(c.execute_add_extension(&s(MINTER), s("3001"), s("E")), Ok(()));
    assert_eq!(c.execute_free_mint(&s(MINTER), s("O")), Ok(s("3001")));
    assert_eq!(c.execute_add_whitelist(&s(MINTER), s("w")), Ok(()));
    match c.query(QueryMsg::RoyaltyInfo { token_id: s("3001"), sale_price: 1000 }) {
        QueryAnswer::RoyaltiesInfo { info } => {
            assert_eq!(info.address, ROYALTY_ADDRESS);
            assert_eq!(info.royalty_amount, 60);
        }
        _ => panic!("wrong answer"),
    }
    assert!(matches!(c.query(QueryMsg::CheckRoyalties {}), QueryAnswer::CheckRoyalties { royalty_payments: true }));
    assert!(matches!(c.query(QueryMsg::IsOnReveal {}), QueryAnswer::IsOnReveal { is_on_reveal: false }));
    match c.query(QueryMsg::GetTokenUri { token_id: s("3001") }) {
        QueryAnswer::TokenUri { token_uri } => assert_eq!(token_uri, NOT_YET_REVEALED),
        _ => panic!("wrong answer"),
    }
    assert!(matches!(c.query(QueryMsg::GetBalance { owner: s("O") }), QueryAnswer::Balance { balance: 1 }));
    assert!(matches!(c.query(QueryMsg::GetBalance { owner: s("X") }), QueryAnswer::Balance { balance: 0 }));
    assert!(matches!(
        c.query(QueryMsg::IsOnWhitelist { member: s("w") }),
        QueryAnswer::IsOnWhitelist { is_on_whitelist: true }
    ));
    match c.query(QueryMsg::GetExtension { token_id: s("3001") }) {
        QueryAnswer::Extension { extension } => assert_eq!(extension, Some(&s("E"))),
        _ => panic!("wrong answer"),
    }
    assert!(matches!(
        c.query(QueryMsg::GetExtension { token_id: s("3002") }),
        QueryAnswer::Extension { extension: None }
    ));
}
