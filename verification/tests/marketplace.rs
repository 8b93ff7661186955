use aquachain::chain::{Coin, Context};
use aquachain::marketplace::{ContractError, WaterCreditMarketplaceContract, DEFAULT_DENOM};

const NOW: u64 = 1_571_797_419;

fn ctx_at(sender: &str, time: u64) -> Context {
    Context { sender: sender.to_string(), funds: vec![], block_time: time }
}

fn ctx(sender: &str) -> Context {
    ctx_at(sender, NOW)
}

fn pay_at(sender: &str, amount: u128, time: u64) -> Context {
    Context {
        sender: sender.to_string(),
        funds: vec![Coin { denom: DEFAULT_DENOM.to_string(), amount }],
        block_time: time,
    }
}

fn market() -> WaterCreditMarketplaceContract {
    let mut c = WaterCreditMarketplaceContract::new();
    c.instantiate(&ctx("admin"), Some(DEFAULT_DENOM.to_string()));
    c
}

fn balance(c: &WaterCreditMarketplaceContract, who: &str) -> u128 {
    c.get_balance(&who.to_string())
}

#[test]
fn mint_list_and_buy_atomic() {
    let mut c = market();
    c.mint_credits(&ctx("admin"), "seller".to_string(), 100).unwrap();
    c.list_credit(&ctx("seller"), 40, 500, "Delhi NCR, India".to_string(), None).unwrap();
    let res = c.buy_credit(&pay_at("buyer", 500, NOW), 1).unwrap();
    assert_eq!(balance(&c, "buyer"), 40);
    assert_eq!(balance(&c, "seller"), 60);
    assert_eq!(res.messages.len(), 1);
    assert_eq!(res.messages[0].to_address, "seller");
    assert_eq!(res.messages[0].amount, 500);
    assert!(!c.get_listing(1).unwrap().active);
}

#[test]
fn reject_buy_on_expired_listing() {
    let mut c = market();
    c.mint_credits(&ctx("admin"), "seller".to_string(), 50).unwrap();
    let expires = NOW + 60;
    c.list_credit(&ctx("seller"), 20, 200, "Bengaluru, India".to_string(), Some(expires)).unwrap();
    let err = c.buy_credit(&pay_at("buyer", 200, NOW + 120), 1);
    assert!(err.is_err());
    assert!(err.unwrap_err().message().contains(&ContractError::ListingExpired.message()));
}

#[test]
fn reject_buy_with_insufficient_funds() {
    let mut c = market();
    c.mint_credits(&ctx("admin"), "seller".to_string(), 30).unwrap();
    c.list_credit(&ctx("seller"), 10, 300, "Udaipur, India".to_string(), None).unwrap();
    let err = c.buy_credit(&pay_at("buyer", 100, NOW), 1);
    assert!(err.is_err());
    assert!(err.unwrap_err().message().contains(&ContractError::WrongPrice.message()));
}

#[test]
fn reject_list_with_insufficient_balance() {
    let mut c = market();
    c.mint_credits(&ctx("admin"), "seller".to_string(), 5).unwrap();
    let err = c.list_credit(&ctx("seller"), 10, 100, "Mumbai, India".to_string(), None);
    assert!(err.is_err());
    assert!(err.unwrap_err().message().contains(&ContractError::InsufficientCredits.message()));
}

#[test]
fn cancel_listing_returns_credits() {
    let mut c = market();
    c.mint_credits(&ctx("admin"), "seller".to_string(), 25).unwrap();
    c.list_credit(&ctx("seller"), 15, 150, "Nashik, India".to_string(), None).unwrap();
    assert_eq!(balance(&c, "seller"), 10);
    c.cancel_listing(&ctx("seller"), 1).unwrap();
    assert_eq!(balance(&c, "seller"), 25);
    assert!(!c.get_listing(1).unwrap().active);
}

#[test]
fn transfer_credit_between_accounts() {
    let mut c = market();
    c.mint_credits(&ctx("admin"), "alice".to_string(), 80).unwrap();
    c.transfer_credit(&ctx("alice"), "bob".to_string(), 30).unwrap();
    assert_eq!(balance(&c, "alice"), 50);
    assert_eq!(balance(&c, "bob"), 30);
}
