use ref_exchange::risk::{Category, ExtAmlContract, ExtContract, MAX_RISK};

fn init_contract() -> ExtContract {
    ExtContract::new("owner".to_string())
}

#[test]
fn get_existing_address() {
    let mut contract = init_contract();
    let address: String = "address_1".to_string();

    contract.create_address(address.clone(), Category::Uncategorized, 0);

    let result = contract.get_address(address.clone());

    assert_eq!(result, (Category::Uncategorized, 0));
}

#[test]
#[should_panic(expected = "ERR_NOT_EXISTS")]
fn get_non_existent_address() {
    let mut contract = init_contract();
    let address: String = "address_1".to_string();

    contract.create_address("address".to_string(), Category::Test, 0);

    let result = contract.get_address(address.clone());

    assert_eq!(result, (Category::Test, 0), "ERR_NOT_EXISTS");
}

#[test]
fn new_register_is_empty_and_keeps_its_owner() {
    let contract = init_contract();
    assert_eq!(contract.owner_id(), "owner");
    assert!(!contract.contains_address(&"address_1".to_string()));
    assert_eq!(contract.get_address("address_1".to_string()), (Category::Uncategorized, 0));
}

#[test]
fn created_address_is_found_with_its_record() {
    let mut contract = init_contract();
    contract.create_address("alice.near".to_string(), Category::Test, 7);
    contract.create_address("bob.near".to_string(), Category::Uncategorized, MAX_RISK);
    assert!(contract.contains_address(&"alice.near".to_string()));
    assert!(contract.contains_address(&"bob.near".to_string()));
    assert!(!contract.contains_address(&"carol.near".to_string()));
    assert_eq!(contract.get_address("alice.near".to_string()), (Category::Test, 7));
    assert_eq!(contract.get_address("bob.near".to_string()), (Category::Uncategorized, 10));
}

#[test]
fn answer_carries_the_label_of_the_category() {
    let mut contract = init_contract();
    contract.create_address("alice.near".to_string(), Category::Test, 3);
    assert_eq!(contract.answer("alice.near".to_string()), ("Test".to_string(), 3));
    assert_eq!(contract.answer("nobody.near".to_string()), ("None".to_string(), 0));
}

#[test]
fn register_answers_through_the_service_interface() {
    let mut contract = init_contract();
    contract.create_address("alice.near".to_string(), Category::Test, 9);
    let answer = <ExtContract as ExtAmlContract>::get_address(&contract, "alice.near".to_string());
    assert_eq!(answer, ("Test".to_string(), 9));
}

#[test]
fn labels_of_the_categories() {
    assert_eq!(Category::Uncategorized.label(), "None");
    assert_eq!(Category::Test.label(), "Test");
}

#[test]
fn highest_risk_is_ten() {
    assert_eq!(MAX_RISK, 10);
}

#[test]
fn record_keeps_its_category_and_risk() {
    let info = ref_exchange::risk::AddressInfo::new(Category::Test, 4);
    assert_eq!(info.category(), Category::Test);
    assert_eq!(info.risk(), 4);
}

#[test]
fn missing_record_answers_without_category_and_risk() {
    let info = ref_exchange::risk::AddressInfo::new(Category::Test, 10);
    assert_eq!(ref_exchange::risk::AddressInfo::or_unlisted(Some(info)), (Category::Test, 10));
    assert_eq!(ref_exchange::risk::AddressInfo::or_unlisted(None), (Category::Uncategorized, 0));
}
