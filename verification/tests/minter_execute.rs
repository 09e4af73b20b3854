use cosmwasm_std::testing::MockApi;
use cosmwasm_std::testing::MOCK_CONTRACT_ADDR;
use cosmwasm_std::Api;
use wattpeak::decimal::Decimal;
use wattpeak::minter::error::ContractError;
use wattpeak::minter::error::StdError;
use wattpeak::minter::execute::execute;
use wattpeak::minter::execute::mint_tokens_msg;
use wattpeak::minter::helpers::MinterMsg;
use wattpeak::minter::helpers::TokenMsg;
use wattpeak::minter::instantiate;
use wattpeak::minter::msg::ExecuteMsg;
use wattpeak::minter::msg::InstantiateMsg;
use wattpeak::minter::state::Config;
use wattpeak::minter::state::Location;
use wattpeak::minter::state::Minter;
use wattpeak::response::Attribute;
use wattpeak::response::Coin;
use wattpeak::response::MessageInfo;
use wattpeak::response::Payment;

const MOCK_ADMIN: &str = "admin";

fn coin(amount: u128, denom: &str) -> Coin {
    Coin { denom: denom.to_string(), amount }
}

fn coins(amount: u128, denom: &str) -> Vec<Coin> {
    vec![coin(amount, denom)]
}

fn mock_info(sender: &str, funds: &[Coin]) -> MessageInfo {
    MessageInfo { sender: sender.to_string(), funds: funds.to_vec() }
}

fn host_accepts(addresses: &[&str]) -> bool {
    addresses.iter().all(|address| MockApi::default().addr_validate(address).is_ok())
}

fn config_accepted(config: &Config) -> bool {
    host_accepts(&[&config.admin, &config.minting_payment_address, &config.minting_fee_address])
}

fn mock_config() -> Config {
    Config {
        admin: MOCK_ADMIN.to_string(),
        minting_payment_address: "mock_address_1".to_string(),
        minting_fee_percentage: Decimal::percent(5),
        minting_price: coin(1000000, "umpwr"),
        minting_fee_address: "mock_address_2".to_string(),
    }
}

fn setup() -> Minter {
    let config = mock_config();
    let accepted = config_accepted(&config);
    let (ledger, _res) = instantiate(InstantiateMsg { config }, MOCK_CONTRACT_ADDR, accepted).unwrap();
    ledger
}

fn location() -> Location {
    Location { latitude: "1".to_string(), longitude: "-1".to_string() }
}

fn upload(name: &str, description: &str, link: &str, max_wattpeak: u64, image: &str) -> ExecuteMsg {
    ExecuteMsg::UploadProject {
        name: name.to_string(),
        description: description.to_string(),
        document_deal_link: link.to_string(),
        max_wattpeak,
        image_link: image.to_string(),
        location: location(),
    }
}

fn attribute(key: &str, value: &str) -> Attribute {
    Attribute { key: key.to_string(), value: value.to_string() }
}

fn generic_err(message: &str) -> String {
    cosmwasm_std::StdError::generic_err(message).to_string()
}

#[test]
fn test_upload_project() {
    let info = mock_info(MOCK_ADMIN, &coins(2, "token"));
    let mut ledger = setup();

    let msg = upload("test name", "test description", "ipfs://test-link", 1000, "ipfs://test-image");
    let res = execute(&mut ledger, &info, msg, true).unwrap();
    assert_eq!(res.attributes.len(), 3);
    assert_eq!(res.attributes[0], attribute("action", "upload_project"));
    assert_eq!(res.attributes[1], attribute("project_id", "1"));
    assert_eq!(res.attributes[2], attribute("new_wattpeak", "1000"));

    let project_deals_count = ledger.project_deals_count();
    assert_eq!(project_deals_count, 1);

    let project_deal = &ledger.projects()[0];
    assert_eq!(project_deal.name, "test name");
    assert_eq!(project_deal.description, "test description");
    assert_eq!(project_deal.document_deal_link, "ipfs://test-link");
    assert_eq!(project_deal.max_wattpeak, 1000);
    assert_eq!(project_deal.minted_wattpeak_count, 0);

    let available_wattpeak_count = ledger.available_wattpeak_count();
    assert_eq!(available_wattpeak_count, 1000);

    let total_wattpeak_minted_count = ledger.total_wattpeak_minted_count();
    assert_eq!(total_wattpeak_minted_count, 0);
}

#[test]
fn invalid_upload_project() {
    let info = mock_info(MOCK_ADMIN, &coins(2, "token"));
    let mut ledger = setup();

    let msg = upload("test name", "test description", "ipfs://test-link", 0, "ipfs://test-image");
    let err = execute(&mut ledger, &info, msg, true).unwrap_err();
    assert_eq!(err, ContractError::Std(StdError::MaxWattpeakZero));
    assert_eq!(err.to_string(), generic_err("max_wattpeak cannot be zero"));
}

#[test]
fn test_upload_project_unauthorized() {
    let mut ledger = setup();

    let msg = upload("test name", "test description", "ipfs://test-link", 1000, "ipfs://test-image");
    let non_admin_info = mock_info("non_admin", &coins(2, "token"));
    let err = execute(&mut ledger, &non_admin_info, msg, true).unwrap_err();
    assert_eq!(err, ContractError::Unauthorized {});
}

#[test]
fn test_upload_multiple_projects() {
    let info = mock_info(MOCK_ADMIN, &coins(2, "token"));
    let mut ledger = setup();

    let msg = upload("test name", "test description", "ipfs://test-link", 1000, "ipfs://test-image");
    let _ = execute(&mut ledger, &info, msg, true).unwrap();
    let msg = upload("test name2", "test description2", "ipfs://test-link2", 3000, "ipfs://test-image2");
    let _ = execute(&mut ledger, &info, msg, true).unwrap();
    let msg = upload("test name3", "test description3", "ipfs://test-link3", 3000, "ipfs://test-image3");
    let _ = execute(&mut ledger, &info, msg, true).unwrap();

    let project_deals_count = ledger.project_deals_count();
    assert_eq!(project_deals_count, 3);

    let project1 = &ledger.projects()[0];
    assert_eq!(project1.name, "test name");
    assert_eq!(project1.description, "test description");
    assert_eq!(project1.document_deal_link, "ipfs://test-link");
    assert_eq!(project1.max_wattpeak, 1000);
    assert_eq!(project1.image_link, "ipfs://test-image");

    let project2 = &ledger.projects()[1];
    assert_eq!(project2.name, "test name2");
    assert_eq!(project2.description, "test description2");
    assert_eq!(project2.document_deal_link, "ipfs://test-link2");
    assert_eq!(project2.max_wattpeak, 3000);
    assert_eq!(project2.image_link, "ipfs://test-image2");

    let project3 = &ledger.projects()[2];
    assert_eq!(project3.name, "test name3");
    assert_eq!(project3.description, "test description3");
    assert_eq!(project3.document_deal_link, "ipfs://test-link3");
    assert_eq!(project3.max_wattpeak, 3000);
    assert_eq!(project3.image_link, "ipfs://test-image3");
}

fn edit(name: &str, description: &str, max_wattpeak: u64) -> ExecuteMsg {
    ExecuteMsg::EditProject {
        id: 1,
        name: Some(name.to_string()),
        description: Some(description.to_string()),
        document_deal_link: Some("ipfs://new-link".to_string()),
        max_wattpeak: Some(max_wattpeak),
        image_link: Some("ipfs://new-image".to_string()),
        location: Some(location()),
    }
}

#[test]
fn test_edit_project() {
    let info = mock_info(MOCK_ADMIN, &coins(2, "token"));
    let mut ledger = setup();

    let msg = upload("test name", "test description", "ipfs://test-link", 1000, "ipfs://test-image");
    execute(&mut ledger, &info, msg, true).unwrap();

    let edit_msg = edit("new name", "new description", 2000);
    let res = execute(&mut ledger, &info, edit_msg, true).unwrap();
    assert_eq!(res.attributes.len(), 3);

    let project_deal = &ledger.projects()[0];
    assert_eq!(project_deal.name, "new name");
    assert_eq!(project_deal.description, "new description");
    assert_eq!(project_deal.document_deal_link, "ipfs://new-link");
    assert_eq!(project_deal.image_link, "ipfs://new-image");
    assert_eq!(project_deal.max_wattpeak, 2000);
    assert_eq!(project_deal.minted_wattpeak_count, 0);
}

#[test]
fn invalid_edit_project() {
    let info = mock_info(MOCK_ADMIN, &coins(2, "token"));
    let mut ledger = setup();

    // First, successfully upload a project
    let msg = upload("test name", "test description", "ipfs://test-link", 1000, "ipfs://test-image");
    execute(&mut ledger, &info, msg, true).unwrap();

    // Attempt to edit the project with an invalid max_wattpeak
    let edit_msg_max_wattpeak = edit("new name", "new description", 0);
    let err_max_wattpeak = execute(&mut ledger, &info, edit_msg_max_wattpeak, true).unwrap_err();
    assert_eq!(err_max_wattpeak, ContractError::Std(StdError::MaxWattpeakZero));
    assert_eq!(err_max_wattpeak.to_string(), generic_err("max_wattpeak cannot be zero"));

    // Attempt to edit the project with an empty name
    let edit_msg_empty_name = edit("", "new description", 500);
    let err_empty_name = execute(&mut ledger, &info, edit_msg_empty_name, true).unwrap_err();
    assert_eq!(err_empty_name, ContractError::Std(StdError::NameEmpty));
    assert_eq!(err_empty_name.to_string(), generic_err("name cannot be empty"));

    // Attempt to edit the project with an empty description
    let edit_msg_empty_description = edit("new name", "", 500);
    let err_empty_description = execute(&mut ledger, &info, edit_msg_empty_description, true).unwrap_err();
    assert_eq!(err_empty_description, ContractError::Std(StdError::DescriptionEmpty));
    assert_eq!(err_empty_description.to_string(), generic_err("description cannot be empty"));
}

#[test]
fn test_edit_project_unauthorized() {
    let info = mock_info(MOCK_ADMIN, &coins(2, "token"));
    let mut ledger = setup();

    let msg = upload("test name", "test description", "ipfs://test-link", 1000, "ipfs://test-image");
    execute(&mut ledger, &info, msg, true).unwrap();

    let edit_msg = edit("new name", "new description", 2000);
    let non_admin_info = mock_info("non_admin", &coins(2, "token"));
    let err = execute(&mut ledger, &non_admin_info, edit_msg, true).unwrap_err();
    assert_eq!(err, ContractError::Unauthorized {});
}

fn new_config(minting_price: Coin, fee_percent: u64) -> (ExecuteMsg, bool) {
    let msg = ExecuteMsg::UpdateConfig {
        admin: Some("new_admin".to_string()),
        minting_price: Some(minting_price),
        minting_payment_address: Some("new_minting_payment_address".to_string()),
        minting_fee_percentage: Some(Decimal::percent(fee_percent)),
        minting_fee_address: Some("new_minting_fee_address".to_string()),
    };
    (msg, host_accepts(&["new_admin", "new_minting_payment_address", "new_minting_fee_address"]))
}

#[test]
fn test_update_config() {
    let info = mock_info("admin", &[]);
    let mut ledger = setup();

    let new_minting_price: Coin = coin(2, "new_WattPeak");
    let (msg, accepted) = new_config(new_minting_price.clone(), 10);
    let res = execute(&mut ledger, &info, msg, accepted).unwrap();
    assert_eq!(res.attributes.len(), 1);

    let config = ledger.config();
    assert_eq!(config.admin, "new_admin");
    assert_eq!(config.minting_price, new_minting_price);
    assert_eq!(config.minting_payment_address, "new_minting_payment_address");
    assert_eq!(config.minting_fee_percentage, Decimal::percent(10));
    assert_eq!(config.minting_fee_address, "new_minting_fee_address");
}

#[test]
fn test_update_config_unauthorized() {
    let mut ledger = setup();

    let (msg, accepted) = new_config(coin(2, "new_WattPeak"), 10);
    let non_admin_info = mock_info("non_admin", &[]);
    let err = execute(&mut ledger, &non_admin_info, msg, accepted).unwrap_err();
    assert_eq!(err, ContractError::Unauthorized {});
}

#[test]
fn test_update_config_invalid_minting_price() {
    let info = mock_info(MOCK_ADMIN, &[]);
    let mut ledger = setup();

    // Define new configuration with an invalid minting price (zero amount)
    let invalid_minting_price: Coin = coin(0, "WattPeak");
    let (msg, accepted) = new_config(invalid_minting_price, 10);

    // Call the update_config function and expect an error
    let err = execute(&mut ledger, &info, msg, accepted).unwrap_err();

    // Assert that the error is due to invalid minting price
    assert_eq!(err, ContractError::Std(StdError::MintingPriceZero));
    assert_eq!(err.to_string(), generic_err("minting_price cannot be zero"));
}

#[test]
fn test_update_config_invalid_minting_price_denom() {
    let info = mock_info(MOCK_ADMIN, &[]);
    let mut ledger = setup();

    let invalid_minting_price: Coin = coin(1, "");
    let (msg, accepted) = new_config(invalid_minting_price, 10);

    let err = execute(&mut ledger, &info, msg, accepted).unwrap_err();

    assert_eq!(err, ContractError::Std(StdError::MintingPriceDenomEmpty));
    assert_eq!(err.to_string(), generic_err("minting_price denom cannot be empty"));
}

#[test]
fn test_update_config_invalid_minting_fee_percentage() {
    let info = mock_info(MOCK_ADMIN, &[]);
    let mut ledger = setup();

    // Define new configuration with an invalid minting fee percentage
    let (msg, accepted) = new_config(coin(1, "WattPeak"), 101);

    let err = execute(&mut ledger, &info, msg, accepted).unwrap_err();

    // Assert that the error is due to invalid minting fee percentage
    assert_eq!(err, ContractError::Std(StdError::MintingFeeTooHigh));
    assert_eq!(err.to_string(), generic_err("minting_fee_percentage cannot be greater than 100%"));
}

#[test]
fn test_mint_tokens_exact_funds() {
    let info = mock_info(MOCK_ADMIN, &coins(1000, "WattPeak"));
    let mut ledger = setup();
    let project_msg = upload("test name", "test description", "ipfs://test-link", 1000000000, "ipfs://test-image");
    execute(&mut ledger, &info, project_msg, true).unwrap();

    let amount_to_mint = 1987343u128;

    // Scenario: Exact funds provided
    let funds_provided = coins(2086710, "umpwr");
    let info = mock_info("user", &funds_provided);

    let res = mint_tokens_msg(&mut ledger, &info, "mint_to_addr".to_string(), amount_to_mint, 1).unwrap();

    let wp_after_mint = ledger.available_wattpeak_count();
    assert_eq!(wp_after_mint, 998012657);
    let project_wattpeak_after_mint = ledger.projects()[0].minted_wattpeak_count;
    assert_eq!(project_wattpeak_after_mint, 1987343);
    assert_eq!(3, res.messages.len());
    assert_eq!(
        res.messages[0],
        MinterMsg::Bank(Payment {
            to_address: "mock_address_1".to_string(),
            denom: "umpwr".to_string(),
            amount: 1987343,
        })
    );
    assert_eq!(
        res.messages[1],
        MinterMsg::Bank(Payment {
            to_address: "mock_address_2".to_string(),
            denom: "umpwr".to_string(),
            amount: 99367,
        })
    );
    assert_eq!(
        res.messages[2],
        MinterMsg::Custom(TokenMsg::MintTokens {
            denom: "factory/cosmos2contract/uwattpeakt".to_string(),
            amount: amount_to_mint,
            mint_to_address: "mint_to_addr".to_string(),
        })
    );

    assert_eq!(res.attributes, vec![attribute("action", "mint_tokens")]);
}

#[test]
fn test_mint_tokens_insufficient_funds() {
    let info = mock_info(MOCK_ADMIN, &coins(1000, "WattPeak"));
    let mut ledger = setup();
    let project_msg = upload("test name", "test description", "ipfs://test-link", 1000, "ipfs://test-image");
    execute(&mut ledger, &info, project_msg, true).unwrap();

    let amount_to_mint = 100u128;

    // Scenario: Insufficient funds provided
    let insufficient_funds = coins(0, "mpwr");
    let info = mock_info("user", &insufficient_funds);

    let err = mint_tokens_msg(&mut ledger, &info, "mint_to_addr".to_string(), amount_to_mint, 1).unwrap_err();

    assert_eq!(err, ContractError::InsufficientFunds {});
}

#[test]
fn test_minting_more_than_available() {
    let info = mock_info(MOCK_ADMIN, &coins(1000, "WattPeak"));
    let mut ledger = setup();
    let project_msg = upload("test name", "test description", "ipfs://test-link", 1000, "ipfs://test-image");
    execute(&mut ledger, &info, project_msg, true).unwrap();

    let amount_to_mint = 1001u128;

    let funds_provided = coins(2625, "umpwr");
    let info = mock_info("user", &funds_provided);

    let err = mint_tokens_msg(&mut ledger, &info, "mint_to_addr".to_string(), amount_to_mint, 1).unwrap_err();

    assert_eq!(err, ContractError::InsufficientWattpeak {});
}

#[test]
fn test_minting_with_too_much_funds() {
    let info = mock_info(MOCK_ADMIN, &coins(1000, "WattPeak"));
    let mut ledger = setup();
    let project_msg = upload("test name", "test description", "ipfs://test-link", 1000, "ipfs://test-image");
    execute(&mut ledger, &info, project_msg, true).unwrap();

    let amount_to_mint = 500u128;

    let funds_provided = coins(2626, "umpwr");
    let info = mock_info("user", &funds_provided);

    let err = mint_tokens_msg(&mut ledger, &info, "mint_to_addr".to_string(), amount_to_mint, 1).unwrap_err();

    assert_eq!(err, ContractError::TooMuchFunds {});
}

#[test]
fn mint_a_project_that_doesnt_exist() {
    let mut ledger = setup();

    let amount_to_mint = 500u128;

    let funds_provided = coins(2625, "umpwr");
    let info = mock_info("user", &funds_provided);

    let err = mint_tokens_msg(&mut ledger, &info, "mint_to_addr".to_string(), amount_to_mint, 1).unwrap_err();

    assert_eq!(err, ContractError::ProjectNotFound {});
}

#[test]
fn mint_then_edit_project_lowering_max_wattpeak() {
    let mut funds_provided = coins(3150000, "umpwr");
    let mut info = mock_info(MOCK_ADMIN, &funds_provided);
    let mut ledger = setup();
    let project_msg = upload("test name", "test description", "ipfs://test-link", 5000000, "ipfs://test-image");
    execute(&mut ledger, &info, project_msg, true).unwrap();

    let amount_to_mint = 3000000u128;

    mint_tokens_msg(&mut ledger, &info, "mint_to_addr".to_string(), amount_to_mint, 1).unwrap();

    let project_msg = ExecuteMsg::EditProject {
        id: 1,
        name: Some("test name".to_string()),
        description: Some("test description".to_string()),
        document_deal_link: Some("ipfs://test-link".to_string()),
        image_link: Some("ipfs://test-image".to_string()),
        max_wattpeak: Some(3000000),
        location: Some(location()),
    };
    let _ = execute(&mut ledger, &info, project_msg, true);

    funds_provided = coins(24, "umpwr");
    info = mock_info(MOCK_ADMIN, &funds_provided);

    let err = mint_tokens_msg(&mut ledger, &info, "mint_to_addr".to_string(), 4, 1).unwrap_err();

    assert_eq!(err, ContractError::InsufficientWattpeak {});
}

#[test]
fn edit_only_one_parameter() {
    let funds_provided = coins(1050, "umpwr");
    let info = mock_info(MOCK_ADMIN, &funds_provided);
    let mut ledger = setup();
    let project_msg = upload("test name", "test description", "ipfs://test-link", 500, "ipfs://test-image");
    execute(&mut ledger, &info, project_msg, true).unwrap();

    let project_msg = ExecuteMsg::EditProject {
        id: 1,
        name: None,
        description: None,
        document_deal_link: None,
        image_link: None,
        max_wattpeak: Some(100),
        location: None,
    };
    execute(&mut ledger, &info, project_msg, true).unwrap();

    let count_after_edit = ledger.available_wattpeak_count();
    assert_eq!(count_after_edit, 100);
}

#[test]
fn test_initialization() {
    let info = mock_info("creator", &coins(1, "umpwr"));

    let config = Config {
        admin: info.sender.clone(),
        minting_payment_address: "mock_address_1".to_string(),
        minting_fee_percentage: Decimal::percent(5),
        minting_price: coin(1, "umpwr"),
        minting_fee_address: "mock_address_2".to_string(),
    };
    let accepted = config_accepted(&config);
    let (ledger, res) =
        instantiate(InstantiateMsg { config: config.clone() }, MOCK_CONTRACT_ADDR, accepted).unwrap();
    assert_eq!(1, res.messages.len());

    let loaded_config = ledger.config();
    assert_eq!(*loaded_config, config);

    let project_deals_count = ledger.project_deals_count();
    assert_eq!(project_deals_count, 0);

    let available_wattpeak_count = ledger.available_wattpeak_count();
    assert_eq!(available_wattpeak_count, 0);

    let total_wattpeak_minted = ledger.total_wattpeak_minted_count();
    assert_eq!(total_wattpeak_minted, 0);
}
