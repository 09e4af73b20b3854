use cosmwasm_std::testing::MockApi;
use cosmwasm_std::testing::MOCK_CONTRACT_ADDR;
use cosmwasm_std::Api;
use wattpeak::decimal::Decimal;
use wattpeak::minter::error::StdError;
use wattpeak::minter::execute::execute;
use wattpeak::minter::instantiate;
use wattpeak::minter::msg::ExecuteMsg;
use wattpeak::minter::msg::InstantiateMsg;
use wattpeak::minter::msg::ProjectsResponse;
use wattpeak::minter::msg::QueryMsg;
use wattpeak::minter::msg::QueryResponse;
use wattpeak::minter::query::query;
use wattpeak::minter::state::Config;
use wattpeak::minter::state::Location;
use wattpeak::minter::state::Minter;
use wattpeak::minter::state::Project;
use wattpeak::response::Coin;
use wattpeak::response::MessageInfo;

const MOCK_ADMIN: &str = "admin";

fn coins(amount: u128, denom: &str) -> Vec<Coin> {
    vec![Coin { denom: denom.to_string(), amount }]
}

fn mock_info(sender: &str, funds: &[Coin]) -> MessageInfo {
    MessageInfo { sender: sender.to_string(), funds: funds.to_vec() }
}

fn mock_config() -> Config {
    Config {
        admin: MOCK_ADMIN.to_string(),
        minting_payment_address: "mock_address_1".to_string(),
        minting_fee_percentage: Decimal::percent(5),
        minting_price: Coin { denom: "umpwr".to_string(), amount: 1 },
        minting_fee_address: "mock_address_2".to_string(),
    }
}

fn setup() -> Minter {
    let config = mock_config();
    let api = MockApi::default();
    let accepted = api.addr_validate(&config.admin).is_ok()
        && api.addr_validate(&config.minting_payment_address).is_ok()
        && api.addr_validate(&config.minting_fee_address).is_ok();
    let (ledger, _res) = instantiate(InstantiateMsg { config }, MOCK_CONTRACT_ADDR, accepted).unwrap();
    ledger
}

fn upload(name: String, description: String, link: String, max_wattpeak: u64, image: String) -> ExecuteMsg {
    ExecuteMsg::UploadProject {
        name,
        description,
        document_deal_link: link,
        max_wattpeak,
        image_link: image,
        location: Location { latitude: "1".to_string(), longitude: "-1".to_string() },
    }
}

fn projects_of(answer: Result<QueryResponse, StdError>) -> ProjectsResponse {
    match answer.unwrap() {
        QueryResponse::Projects(found) => found,
        other => panic!("unexpected answer {:?}", other),
    }
}

fn project_of(answer: Result<QueryResponse, StdError>) -> Project {
    match answer.unwrap() {
        QueryResponse::Project(found) => found,
        other => panic!("unexpected answer {:?}", other),
    }
}

#[test]
fn test_query_projects() {
    let info = mock_info(MOCK_ADMIN, &coins(2, "token"));
    let mut ledger = setup();

    let res = projects_of(query(&ledger, QueryMsg::Projects { limit: None, start_after: None }));
    assert_eq!(res.projects.len(), 0);

    let upload_first = upload(
        "test name".to_string(),
        "test description".to_string(),
        "ipfs://test-link".to_string(),
        1000,
        "ipfs://test-image".to_string(),
    );
    execute(&mut ledger, &info, upload_first, true).unwrap();

    let upload_second = upload(
        "test name 2".to_string(),
        "test description 2".to_string(),
        "ipfs://test-link-2".to_string(),
        2000,
        "ipfs://test-image-2".to_string(),
    );
    execute(&mut ledger, &info, upload_second, true).unwrap();

    let res = projects_of(query(&ledger, QueryMsg::Projects { limit: None, start_after: None }));
    assert_eq!(res.projects.len(), 2);
    assert_eq!(res.projects[0].name, "test name");
    assert_eq!(res.projects[0].description, "test description");
    assert_eq!(res.projects[0].document_deal_link, "ipfs://test-link");
    assert_eq!(res.projects[0].max_wattpeak, 1000);
    assert_eq!(res.projects[1].name, "test name 2");
    assert_eq!(res.projects[1].description, "test description 2");
    assert_eq!(res.projects[1].document_deal_link, "ipfs://test-link-2");
    assert_eq!(res.projects[1].max_wattpeak, 2000);
}

#[test]
fn test_query_projects_limit_and_start() {
    let info = mock_info(MOCK_ADMIN, &coins(2, "token"));
    let mut ledger = setup();

    // Loop to create 10 projects
    for i in 0..10 {
        let upload = upload(
            format!("test name {}", i),
            format!("test description {}", i),
            format!("ipfs://test-link-{}", i),
            1000 * (i + 1),
            format!("ipfs://test-image-{}", i),
        );
        execute(&mut ledger, &info, upload, true).unwrap();
    }

    let res = projects_of(query(&ledger, QueryMsg::Projects { limit: Some(2), start_after: None }));
    assert_eq!(res.projects.len(), 2);
    assert_eq!(res.projects[0].name, "test name 0");
    assert_eq!(res.projects[1].name, "test name 1");

    let res = projects_of(query(&ledger, QueryMsg::Projects { limit: Some(2), start_after: Some(2) }));
    assert_eq!(res.projects.len(), 2);
    assert_eq!(res.projects[0].name, "test name 2");
    assert_eq!(res.projects[1].name, "test name 3");

    let res = projects_of(query(&ledger, QueryMsg::Projects { limit: Some(11), start_after: None }));
    assert_eq!(res.projects.len(), 10);
}

#[test]
fn test_query_project() {
    let info = mock_info(MOCK_ADMIN, &coins(2, "token"));
    let mut ledger = setup();

    let upload_first = upload(
        "test name".to_string(),
        "test description".to_string(),
        "ipfs://test-link".to_string(),
        1000,
        "ipfs://test-image".to_string(),
    );
    execute(&mut ledger, &info, upload_first, true).unwrap();

    let project = project_of(query(&ledger, QueryMsg::Project { id: 1 }));
    assert_eq!(project.name, "test name");
    assert_eq!(project.description, "test description");
    assert_eq!(project.document_deal_link, "ipfs://test-link");
    assert_eq!(project.max_wattpeak, 1000);
    assert_eq!(project.minted_wattpeak_count, 0);
}

#[test]
fn test_query_project_not_found() {
    let ledger = setup();

    let err = query(&ledger, QueryMsg::Project { id: 1 }).unwrap_err();
    assert_eq!(err, StdError::ProjectNotFound);
    assert_eq!(
        err.to_string(),
        cosmwasm_std::StdError::NotFound { kind: "wattpeak_minter::state::Project".to_string() }.to_string()
    );
}

#[test]
fn query_lists_thirty_projects_where_no_limit_is_given() {
    let info = mock_info(MOCK_ADMIN, &[]);
    let mut ledger = setup();
    for i in 0..35u64 {
        let upload = upload(format!("name {}", i), "description".to_string(), String::new(), i + 1, String::new());
        execute(&mut ledger, &info, upload, true).unwrap();
    }
    let res = projects_of(query(&ledger, QueryMsg::Projects { limit: None, start_after: None }));
    assert_eq!(res.projects.len(), 30);
    let res = projects_of(query(&ledger, QueryMsg::Projects { limit: None, start_after: Some(30) }));
    assert_eq!(res.projects.len(), 5);
    assert_eq!(res.projects[0].max_wattpeak, 31);
    let res = projects_of(query(&ledger, QueryMsg::Projects { limit: Some(0), start_after: None }));
    assert_eq!(res.projects.len(), 0);
    let res = projects_of(query(&ledger, QueryMsg::Projects { limit: Some(3), start_after: Some(99) }));
    assert_eq!(res.projects.len(), 0);
    match query(&ledger, QueryMsg::Config {}).unwrap() {
        QueryResponse::Config(found) => assert_eq!(found, mock_config()),
        other => panic!("unexpected answer {:?}", other),
    }
}
