use nft_factory::account::is_valid_account_name;
use nft_factory::init_args::{encode_royalties, frame_custom_args, frame_default_args};
use nft_factory::{
    child_account_id, CallContext, FactoryError, InitArgs, NFTFactory, Registry, RegistryError,
    MAX_GAS, MIN_ATTACHED_BALANCE, NO_DEPOSIT,
};

fn ctx(deposit: u128) -> CallContext {
    CallContext {
        predecessor_account_id: "alice.near".to_string(),
        current_account_id: "factory.near".to_string(),
        attached_deposit: deposit,
    }
}

fn admin_key() -> Vec<u8> {
    let mut k = vec![0u8];
    k.extend(1u8..=32);
    k
}

#[test]
fn child_identity_is_name_dot_namespace() {
    assert_eq!(child_account_id("alpha", "factory.near"), "alpha.factory.near");
}

#[test]
fn create_default_end_to_end() {
    let mut f = NFTFactory::new(admin_key());
    assert!(!f.is_subaccount_exist("shop".to_string()));
    let plan = f.create_default("shop".to_string(), &ctx(MIN_ATTACHED_BALANCE)).unwrap();
    assert!(f.is_subaccount_exist("shop".to_string()));
    assert_eq!(f.subaccount_count(), 1);
    assert_eq!(plan.account_id, "shop.factory.near");
    assert_eq!(plan.full_access_key, admin_key());
    assert_eq!(plan.transfer, MIN_ATTACHED_BALANCE);
    assert_eq!(plan.method_name, "new_default_meta");
    assert_eq!(plan.args, "{\"owner_id\":\"alice.near\"}");
    assert_eq!(plan.function_call_deposit, NO_DEPOSIT);
    assert_eq!(plan.gas, MAX_GAS);
    assert_eq!(plan.gas, 80_000_000_000_000);
}

#[test]
fn allocation_precedes_deployment() {
    // The registry entry stands as soon as the call returns; nothing here
    // waits for the runtime to execute the plan.
    let mut f = NFTFactory::new(admin_key());
    let _plan = f.create_default("shop".to_string(), &ctx(MIN_ATTACHED_BALANCE)).unwrap();
    assert!(f.is_subaccount_exist("shop".to_string()));
}

#[test]
fn second_create_is_refused() {
    let mut f = NFTFactory::new(admin_key());
    f.create_default("shop".to_string(), &ctx(MIN_ATTACHED_BALANCE)).unwrap();
    let r = f.create(
        "shop".to_string(),
        "{}".to_string(),
        "{}".to_string(),
        5,
        None,
        &ctx(MIN_ATTACHED_BALANCE),
    );
    assert_eq!(r.err(), Some(FactoryError::NameAlreadyAllocated));
    assert_eq!(f.subaccount_count(), 1);
    assert!(f.is_subaccount_exist("shop".to_string()));
}

#[test]
fn second_create_default_is_refused() {
    let mut f = NFTFactory::new(admin_key());
    f.create_default("shop".to_string(), &ctx(MIN_ATTACHED_BALANCE)).unwrap();
    let r = f.create_default("shop".to_string(), &ctx(MIN_ATTACHED_BALANCE + 1));
    assert_eq!(r.err(), Some(FactoryError::NameAlreadyAllocated));
    assert_eq!(f.subaccount_count(), 1);
}

#[test]
fn underpaid_calls_are_refused() {
    let mut f = NFTFactory::new(admin_key());
    let r = f.create_default("shop".to_string(), &ctx(MIN_ATTACHED_BALANCE - 1));
    assert_eq!(r.err(), Some(FactoryError::InsufficientPayment));
    let r = f.create_default("shop".to_string(), &ctx(0));
    assert_eq!(r.err(), Some(FactoryError::InsufficientPayment));
    assert_eq!(f.subaccount_count(), 0);
    assert!(!f.is_subaccount_exist("shop".to_string()));
    f.create_default("shop".to_string(), &ctx(MIN_ATTACHED_BALANCE)).unwrap();
    // Payment is checked before the name.
    let r = f.create(
        "shop".to_string(),
        "{}".to_string(),
        "{}".to_string(),
        1,
        None,
        &ctx(1),
    );
    assert_eq!(r.err(), Some(FactoryError::InsufficientPayment));
    assert_eq!(f.subaccount_count(), 1);
}

#[test]
fn invalid_child_identity_is_refused() {
    let mut f = NFTFactory::new(admin_key());
    for bad in ["Shop", "", "a..b", "sh op", "-shop", "shop_"] {
        let r = f.create_default(bad.to_string(), &ctx(MIN_ATTACHED_BALANCE));
        assert_eq!(r.err(), Some(FactoryError::NameFormatInvalid), "{}", bad);
    }
    let long = "a".repeat(52);
    let r = f.create_default(long, &ctx(MIN_ATTACHED_BALANCE));
    assert_eq!(r.err(), Some(FactoryError::NameFormatInvalid));
    assert_eq!(f.subaccount_count(), 0);
    // 51 + 1 + 12 = 64 bytes: the longest accepted identity.
    let longest = "a".repeat(51);
    assert!(f.create_default(longest, &ctx(MIN_ATTACHED_BALANCE)).is_ok());
}

#[test]
fn query_is_stable() {
    let mut f = NFTFactory::new(admin_key());
    f.create_default("shop".to_string(), &ctx(MIN_ATTACHED_BALANCE)).unwrap();
    for _ in 0..3 {
        assert!(f.is_subaccount_exist("shop".to_string()));
        assert!(!f.is_subaccount_exist("other".to_string()));
    }
}

#[test]
fn create_custom_payload() {
    let mut f = NFTFactory::new(admin_key());
    let plan = f
        .create(
            "gallery".to_string(),
            "{\"spec\":\"nft-1.0.0\"}".to_string(),
            "{\"title\":\"t\"}".to_string(),
            1_000_000_000_000_000_000_000_000,
            Some(vec![("bob.near".to_string(), 500), ("carol.near".to_string(), 250)]),
            &ctx(MIN_ATTACHED_BALANCE * 2),
        )
        .unwrap();
    assert_eq!(plan.account_id, "gallery.factory.near");
    assert_eq!(plan.method_name, "new");
    assert_eq!(plan.transfer, MIN_ATTACHED_BALANCE * 2);
    assert_eq!(plan.full_access_key, admin_key());
    assert_eq!(
        plan.args,
        "{\"metadata\":{\"spec\":\"nft-1.0.0\"},\"minting_price\":\"1000000000000000000000000\",\
         \"owner_id\":\"alice.near\",\"perpetual_royalties\":{\"bob.near\":500,\"carol.near\":250},\
         \"token_metadata\":{\"title\":\"t\"}}"
    );
    assert!(f.is_subaccount_exist("gallery".to_string()));
}

#[test]
fn several_children() {
    let mut f = NFTFactory::new(admin_key());
    for n in ["a1", "b2", "c3"] {
        f.create_default(n.to_string(), &ctx(MIN_ATTACHED_BALANCE)).unwrap();
    }
    assert_eq!(f.subaccount_count(), 3);
    assert!(f.is_subaccount_exist("b2".to_string()));
    assert_eq!(f.master_pk(), &admin_key());
}

#[test]
fn owner_is_escaped_in_payload() {
    let args = InitArgs::DefaultInit { owner_id: "a\"b\\c".to_string() };
    assert_eq!(args.to_json(), "{\"owner_id\":\"a\\\"b\\\\c\"}");
    assert_eq!(args.method_name(), "new_default_meta");
}

#[test]
fn frames_take_literals_as_given() {
    assert_eq!(frame_default_args("\"x\""), "{\"owner_id\":\"x\"}");
    assert_eq!(
        frame_custom_args("{}", 0, "\"o\"", "null", "{}"),
        "{\"metadata\":{},\"minting_price\":\"0\",\"owner_id\":\"o\",\"perpetual_royalties\":null,\"token_metadata\":{}}"
    );
    assert_eq!(
        frame_custom_args("m", u128::MAX, "o", "r", "t"),
        "{\"metadata\":m,\"minting_price\":\"340282366920938463463374607431768211455\",\"owner_id\":o,\"perpetual_royalties\":r,\"token_metadata\":t}"
    );
}

#[test]
fn royalty_tables() {
    assert_eq!(encode_royalties(&None), "null");
    assert_eq!(encode_royalties(&Some(vec![])), "{}");
    assert_eq!(encode_royalties(&Some(vec![("x.near".to_string(), 0)])), "{\"x.near\":0}");
    assert_eq!(
        encode_royalties(&Some(vec![("x".to_string(), 4294967295), ("y".to_string(), 10)])),
        "{\"x\":4294967295,\"y\":10}"
    );
}

#[test]
fn account_name_rule() {
    for ok in ["aa", "a-a", "100", "b-o_w_e-n", "alice.near", "shop.factory.near"] {
        assert!(is_valid_account_name(ok), "{}", ok);
    }
    for bad in ["a", "A", "a.", ".a", "a--b", "a.-b", "ä", "a b"] {
        assert!(!is_valid_account_name(bad), "{}", bad);
    }
    assert!(is_valid_account_name(&"a".repeat(64)));
    assert!(!is_valid_account_name(&"a".repeat(65)));
}

#[test]
fn registry_insert_and_contains() {
    let mut r = Registry::new();
    assert_eq!(r.len(), 0);
    assert!(!r.contains(&"x".to_string()));
    assert_eq!(r.insert("x".to_string()), Ok(()));
    assert_eq!(r.insert("y".to_string()), Ok(()));
    assert_eq!(r.insert("x".to_string()), Err(RegistryError::NameAlreadyAllocated));
    assert_eq!(r.len(), 2);
    assert!(r.contains(&"x".to_string()));
    assert!(r.contains(&"y".to_string()));
    assert!(!r.contains(&"z".to_string()));
}
