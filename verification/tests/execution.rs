use monitor_execution::{
    execute_monitor, BlockChainType, ClientKind, ErrorKind, ExecutionResult, Monitor,
    MonitorExecutionError, MonitorMatch, Network, Step,
};

/// A client as the pool of these tests hands it out.
#[derive(Debug, Clone, PartialEq)]
struct Client {
    kind: ClientKind,
    network: String,
}

/// A block as the clients of these tests return it.
#[derive(Debug, Clone, PartialEq)]
struct Block {
    number: u64,
    transactions: Vec<String>,
}

/// What the filtering engine was handed.
#[derive(Debug, Clone, PartialEq)]
struct Filtering {
    client: Client,
    network: Network,
    block: Block,
    monitors: Vec<Monitor>,
}

/// Collaborators with fixed behaviour, which record what each is asked.
struct Collaborators {
    /// The registry.
    networks: Vec<Network>,
    /// Why the pool has no client, if it has none.
    pool_failure: Option<String>,
    /// The transactions of every block that the chain has; `None` where the
    /// chain has no block at all.
    transactions: Option<Vec<String>>,
    /// Why the client cannot fetch, if it cannot.
    client_failure: Option<String>,
    /// The transactions that satisfy the monitor's condition.
    matching: Vec<String>,
    /// Why the engine cannot filter, if it cannot.
    engine_failure: Option<String>,
    lookups: Vec<String>,
    acquisitions: Vec<(ClientKind, Network)>,
    fetches: Vec<(Client, u64)>,
    filterings: Vec<Filtering>,
}

impl Collaborators {
    fn new(networks: Vec<Network>) -> Self {
        Collaborators {
            networks,
            pool_failure: None,
            transactions: Some(Vec::new()),
            client_failure: None,
            matching: Vec::new(),
            engine_failure: None,
            lookups: Vec::new(),
            acquisitions: Vec::new(),
            fetches: Vec::new(),
            filterings: Vec::new(),
        }
    }

    fn asked(&self) -> usize {
        self.lookups.len() + self.acquisitions.len() + self.fetches.len() + self.filterings.len()
    }

    fn get(&mut self, slug: &str) -> Option<Network> {
        self.lookups.push(slug.to_string());
        self.networks.iter().find(|network| network.slug == slug).cloned()
    }

    fn get_client(&mut self, kind: ClientKind, network: &Network) -> Result<Client, String> {
        self.acquisitions.push((kind, network.clone()));
        match &self.pool_failure {
            Some(cause) => Err(cause.clone()),
            None => Ok(Client { kind, network: network.slug.clone() }),
        }
    }

    fn get_block_by_number(&mut self, client: &Client, number: u64) -> Result<Option<Block>, String> {
        self.fetches.push((client.clone(), number));
        match &self.client_failure {
            Some(cause) => Err(cause.clone()),
            None => Ok(self
                .transactions
                .clone()
                .map(|transactions| Block { number, transactions })),
        }
    }

    fn filter_block(
        &mut self,
        client: &Client,
        network: &Network,
        block: &Block,
        monitors: &[Monitor],
    ) -> Result<Vec<MonitorMatch>, String> {
        self.filterings.push(Filtering {
            client: client.clone(),
            network: network.clone(),
            block: block.clone(),
            monitors: monitors.to_vec(),
        });
        match &self.engine_failure {
            Some(cause) => Err(cause.clone()),
            None => Ok(block
                .transactions
                .iter()
                .filter(|hash| self.matching.contains(hash))
                .map(|hash| transfer(hash))
                .collect()),
        }
    }
}

fn run(
    monitor_name: &str,
    network_slug: &str,
    block_number: u64,
    active_monitors: Vec<Monitor>,
    with: &mut Collaborators,
) -> ExecutionResult<String> {
    let mut step: Step<Client, Block> =
        execute_monitor(monitor_name, network_slug, &block_number, active_monitors);
    loop {
        step = match step {
            Step::LookupNetwork(pending) => {
                let found = with.get(pending.network_slug());
                pending.resolved(found)
            }
            Step::AcquireClient(pending) => {
                let client = with.get_client(pending.kind(), pending.network());
                pending.acquired(client)
            }
            Step::FetchBlock(pending) => {
                let block = with.get_block_by_number(pending.client(), pending.block_number());
                pending.fetched(block)
            }
            Step::FilterBlock(pending) => {
                let matches = with.filter_block(
                    pending.client(),
                    pending.network(),
                    pending.block(),
                    &pending.monitors(),
                );
                pending.filtered(matches)
            }
            Step::Finished(result) => return result,
        };
    }
}

fn monitor(name: &str, networks: &[&str]) -> Monitor {
    Monitor {
        name: name.to_string(),
        networks: networks.iter().map(|slug| slug.to_string()).collect(),
        paused: false,
        triggers: vec!["notify".to_string()],
    }
}

fn network(name: &str, slug: &str, network_type: BlockChainType) -> Network {
    Network { slug: slug.to_string(), name: name.to_string(), network_type }
}

fn hashes(list: &[&str]) -> Vec<String> {
    list.iter().map(|hash| hash.to_string()).collect()
}

fn transfer(hash: &str) -> MonitorMatch {
    let mut fields = serde_json::Map::new();
    fields.insert("transaction".to_string(), MonitorMatch::from(hash));
    fields.insert("value".to_string(), MonitorMatch::from(7u64));
    MonitorMatch::Object(fields)
}

fn decode(text: &str) -> Vec<serde_json::Value> {
    serde_json::from_str(text).unwrap()
}

fn message(result: &ExecutionResult<String>) -> String {
    match result {
        Ok(text) => panic!("the execution succeeded with {}", text),
        Err(error) => error.message().clone(),
    }
}

fn kind(result: &ExecutionResult<String>) -> ErrorKind {
    match result {
        Ok(text) => panic!("the execution succeeded with {}", text),
        Err(error) => error.kind(),
    }
}

fn ethereum() -> Collaborators {
    Collaborators::new(vec![network("Ethereum", "ethereum_mainnet", BlockChainType::EVM)])
}

fn stellar() -> Collaborators {
    Collaborators::new(vec![network("Stellar", "stellar_testnet", BlockChainType::Stellar)])
}

#[test]
fn test_execute_monitor_evm() {
    let mut with = ethereum();
    // One block with three transactions, of which the monitor matches one.
    with.transactions = Some(hashes(&["0xa1", "0xb2", "0xc3"]));
    with.matching = hashes(&["0xb2"]);
    let block_number = 21305050;

    let result = run(
        "m1",
        "ethereum_mainnet",
        block_number,
        vec![monitor("m1", &["ethereum_mainnet"])],
        &mut with,
    );
    assert!(result.is_ok(), "Monitor execution failed: {:?}", result.err());

    let matches: Vec<serde_json::Value> = serde_json::from_str(&result.unwrap()).unwrap();
    assert!(matches.len() == 1);
    assert!(matches[0].is_object());
    assert_eq!(with.acquisitions.len(), 1);
    assert_eq!(with.acquisitions[0].0, ClientKind::Evm);
    assert_eq!(with.fetches.len(), 1);
    assert_eq!(with.fetches[0].1, 21305050);
}

#[test]
fn test_execute_monitor_evm_wrong_network() {
    let mut with = ethereum();
    let block_number = 22197425;

    let result = run(
        "m1",
        "ethereum_goerli",
        block_number,
        vec![monitor("m1", &["ethereum_mainnet"])],
        &mut with,
    );
    assert!(result.is_err());
    assert_eq!(kind(&result), ErrorKind::NotFound);
    assert_eq!(message(&result), "Network 'ethereum_goerli' not configured for monitor 'm1'");
    assert_eq!(with.acquisitions.len(), 0);
    assert_eq!(with.asked(), 0);
}

#[test]
fn test_execute_monitor_evm_wrong_block_number() {
    let mut with = ethereum();
    with.transactions = None;
    let block_number = 1;

    let result = run(
        "m1",
        "ethereum_mainnet",
        block_number,
        vec![monitor("m1", &["ethereum_mainnet"])],
        &mut with,
    );
    assert!(result.is_err());
    assert_eq!(kind(&result), ErrorKind::ExecutionError);
    assert_eq!(message(&result), "Block 1 not found");
    assert_eq!(with.filterings.len(), 0);
}

#[test]
fn test_execute_monitor_evm_failed_to_get_block_by_number() {
    let mut with = ethereum();
    with.client_failure = Some("Failed to get block by number".to_string());
    let block_number = 1;

    let result = run(
        "m1",
        "ethereum_mainnet",
        block_number,
        vec![monitor("m1", &["ethereum_mainnet"])],
        &mut with,
    );
    assert!(result.is_err());
    assert_eq!(kind(&result), ErrorKind::ExecutionError);
    assert_eq!(message(&result), "Failed to get block 1: Failed to get block by number");
    assert_eq!(with.filterings.len(), 0);
}

#[test]
fn test_execute_monitor_evm_failed_to_get_evm_client() {
    let mut with = ethereum();
    with.pool_failure = Some("Failed to get evm client".to_string());
    let block_number = 1;

    let result = run(
        "m1",
        "ethereum_mainnet",
        block_number,
        vec![monitor("m1", &["ethereum_mainnet"])],
        &mut with,
    );
    assert!(result.is_err());
    assert_eq!(kind(&result), ErrorKind::ExecutionError);
    assert_eq!(message(&result), "Failed to get EVM client: Failed to get evm client");
    assert_eq!(with.fetches.len(), 0);
}

#[test]
fn test_execute_monitor_stellar() {
    let mut with = stellar();
    with.transactions = Some(hashes(&["a1b2", "c3d4"]));
    with.matching = hashes(&["c3d4"]);
    let block_number = 172627;

    let result = run(
        "m2",
        "stellar_testnet",
        block_number,
        vec![monitor("m2", &["stellar_testnet"])],
        &mut with,
    );
    assert!(result.is_ok(), "Monitor execution failed: {:?}", result.err());

    let matches: Vec<serde_json::Value> = serde_json::from_str(&result.unwrap()).unwrap();
    assert!(matches.len() == 1);
    assert!(matches[0].is_object());
    assert_eq!(with.acquisitions.len(), 1);
    assert_eq!(with.acquisitions[0].0, ClientKind::Stellar);
    assert_eq!(with.fetches.len(), 1);
    assert_eq!(with.fetches[0].1, 172627);
}

#[test]
fn test_execute_monitor_not_found() {
    let mut with = stellar();
    let block_number = 172627;

    let result = run(
        "wrong_monitor",
        "stellar_testnet",
        block_number,
        vec![monitor("m2", &["stellar_testnet"])],
        &mut with,
    );
    assert!(result.is_err());
    assert_eq!(kind(&result), ErrorKind::NotFound);
    assert_eq!(message(&result), "Monitor 'wrong_monitor' not found");
    assert_eq!(with.asked(), 0);
}

#[test]
fn test_execute_monitor_failed_to_get_block() {
    let mut with = stellar();
    with.transactions = None;
    let block_number = 172627;

    let result = run(
        "m2",
        "stellar_testnet",
        block_number,
        vec![monitor("m2", &["stellar_testnet"])],
        &mut with,
    );
    assert!(result.is_err());
    assert_eq!(kind(&result), ErrorKind::ExecutionError);
    assert_eq!(message(&result), "Block 172627 not found");
}

#[test]
fn test_execute_monitor_failed_to_get_stellar_client() {
    let mut with = stellar();
    with.pool_failure = Some("Failed to get stellar client".to_string());
    let block_number = 172627;

    let result = run(
        "m2",
        "stellar_testnet",
        block_number,
        vec![monitor("m2", &["stellar_testnet"])],
        &mut with,
    );
    assert!(result.is_err());
    assert_eq!(kind(&result), ErrorKind::ExecutionError);
    assert_eq!(message(&result), "Failed to get Stellar client: Failed to get stellar client");
    assert_eq!(with.fetches.len(), 0);
}

#[test]
fn test_execute_monitor_failed_to_get_block_by_number() {
    let mut with = stellar();
    with.client_failure = Some("Failed to get block by number".to_string());
    let block_number = 172627;

    let result = run(
        "m2",
        "stellar_testnet",
        block_number,
        vec![monitor("m2", &["stellar_testnet"])],
        &mut with,
    );
    assert!(result.is_err());
    assert_eq!(kind(&result), ErrorKind::ExecutionError);
    assert_eq!(message(&result), "Failed to get block 172627: Failed to get block by number");
}

#[test]
fn unknown_monitor_asks_nothing() {
    let mut with = ethereum();
    let monitors = vec![monitor("m1", &["ethereum_mainnet"]), monitor("m2", &["stellar_testnet"])];

    let result = run("m3", "ethereum_mainnet", 5, monitors, &mut with);
    assert_eq!(
        result,
        Err(MonitorExecutionError::not_found("Monitor 'm3' not found".to_string(), None))
    );
    assert_eq!(with.asked(), 0);
}

#[test]
fn no_monitors_at_all() {
    let mut with = Collaborators::new(Vec::new());
    let result = run("m1", "ethereum_mainnet", 5, Vec::new(), &mut with);
    assert_eq!(kind(&result), ErrorKind::NotFound);
    assert_eq!(message(&result), "Monitor 'm1' not found");
    assert_eq!(with.asked(), 0);
}

#[test]
fn unknown_monitor_comes_before_unsupported_chain() {
    // The network is of a kind without a client, but no monitor bears the
    // name: the registry is never asked, so the kind never shows.
    let mut with =
        Collaborators::new(vec![network("Midnight", "midnight_testnet", BlockChainType::Midnight)]);
    let result = run("m1", "midnight_testnet", 5, Vec::new(), &mut with);
    assert_eq!(kind(&result), ErrorKind::NotFound);
    assert_eq!(with.asked(), 0);
}

#[test]
fn unbound_network_asks_nothing() {
    // The network is registered, but the monitor is not bound to it.
    let mut with =
        Collaborators::new(vec![network("Goerli", "ethereum_goerli", BlockChainType::EVM)]);
    let result =
        run("m1", "ethereum_goerli", 5, vec![monitor("m1", &["ethereum_mainnet"])], &mut with);
    assert_eq!(
        result,
        Err(MonitorExecutionError::not_found(
            "Network 'ethereum_goerli' not configured for monitor 'm1'".to_string(),
            None
        ))
    );
    assert_eq!(with.lookups.len(), 0);
    assert_eq!(with.acquisitions.len(), 0);
}

#[test]
fn monitor_without_networks_is_unbound() {
    let mut with = ethereum();
    let result = run("m1", "ethereum_mainnet", 5, vec![monitor("m1", &[])], &mut with);
    assert_eq!(kind(&result), ErrorKind::NotFound);
    assert_eq!(message(&result), "Network 'ethereum_mainnet' not configured for monitor 'm1'");
    assert_eq!(with.asked(), 0);
}

#[test]
fn first_monitor_of_a_name_is_the_one() {
    // Two monitors bear the name; only the second is bound to the network.
    let mut with = ethereum();
    let monitors = vec![monitor("m1", &["stellar_testnet"]), monitor("m1", &["ethereum_mainnet"])];
    let result = run("m1", "ethereum_mainnet", 5, monitors, &mut with);
    assert_eq!(kind(&result), ErrorKind::NotFound);
    assert_eq!(with.asked(), 0);

    // The other way round the first is bound, and it is the one that is filtered.
    let first = monitor("m1", &["ethereum_mainnet", "stellar_testnet"]);
    let monitors = vec![
        monitor("m0", &["ethereum_mainnet"]),
        first.clone(),
        monitor("m1", &["ethereum_mainnet"]),
    ];
    let step: Step<Client, Block> = execute_monitor("m1", "ethereum_mainnet", &5, monitors.clone());
    match step {
        Step::LookupNetwork(pending) => {
            assert_eq!(pending.target().position, 1);
            assert_eq!(pending.target().monitor, first);
        }
        other => panic!("the network was to be looked up: {:?}", other),
    }
    let result = run("m1", "ethereum_mainnet", 5, monitors, &mut with);
    assert_eq!(result, Ok("[]".to_string()));
    assert_eq!(with.filterings.len(), 1);
    assert_eq!(with.filterings[0].monitors, vec![first]);
}

#[test]
fn unregistered_network_is_not_found() {
    let mut with = stellar();
    let result =
        run("m1", "ethereum_mainnet", 5, vec![monitor("m1", &["ethereum_mainnet"])], &mut with);
    assert_eq!(
        result,
        Err(MonitorExecutionError::not_found(
            "Network 'ethereum_mainnet' not found".to_string(),
            None
        ))
    );
    assert_eq!(with.lookups, vec!["ethereum_mainnet".to_string()]);
    assert_eq!(with.acquisitions.len(), 0);
}

#[test]
fn midnight_is_not_supported() {
    let mut with =
        Collaborators::new(vec![network("Midnight", "midnight_testnet", BlockChainType::Midnight)]);
    let result =
        run("m1", "midnight_testnet", 99, vec![monitor("m1", &["midnight_testnet"])], &mut with);
    assert_eq!(
        result,
        Err(MonitorExecutionError::execution_error(
            "Midnight network not supported".to_string(),
            None
        ))
    );
    assert_eq!(with.lookups.len(), 1);
    assert_eq!(with.acquisitions.len(), 0);
    assert_eq!(with.fetches.len(), 0);
}

#[test]
fn solana_is_not_supported() {
    let mut with =
        Collaborators::new(vec![network("Solana", "solana_devnet", BlockChainType::Solana)]);
    for block_number in [0u64, 1, 172627, u64::MAX] {
        let mut bound = monitor("m1", &["solana_devnet", "ethereum_mainnet"]);
        bound.paused = block_number % 2 == 0;
        let result = run("m1", "solana_devnet", block_number, vec![bound], &mut with);
        assert_eq!(kind(&result), ErrorKind::ExecutionError);
        assert_eq!(message(&result), "Solana network not supported");
        assert!(message(&result).contains("Solana"));
    }
    assert_eq!(with.lookups.len(), 4);
    assert_eq!(with.acquisitions.len(), 0);
    assert_eq!(with.fetches.len(), 0);
}

#[test]
fn failed_filtering_is_an_execution_error() {
    let mut with = ethereum();
    with.engine_failure = Some("condition does not parse".to_string());
    let result =
        run("m1", "ethereum_mainnet", 5, vec![monitor("m1", &["ethereum_mainnet"])], &mut with);
    assert_eq!(
        result,
        Err(MonitorExecutionError::execution_error(
            "Failed to filter block: condition does not parse".to_string(),
            None
        ))
    );
}

#[test]
fn cause_is_kept_as_given() {
    let mut with = stellar();
    with.client_failure = Some(String::new());
    let result =
        run("m2", "stellar_testnet", 10, vec![monitor("m2", &["stellar_testnet"])], &mut with);
    assert_eq!(message(&result), "Failed to get block 10: ");

    with.client_failure = Some("timeout: 30 s\nretry later".to_string());
    let result =
        run("m2", "stellar_testnet", 10, vec![monitor("m2", &["stellar_testnet"])], &mut with);
    assert_eq!(message(&result), "Failed to get block 10: timeout: 30 s\nretry later");
}

#[test]
fn largest_block_number_is_written_out() {
    let mut with = ethereum();
    with.transactions = None;
    let result = run(
        "m1",
        "ethereum_mainnet",
        u64::MAX,
        vec![monitor("m1", &["ethereum_mainnet"])],
        &mut with,
    );
    assert_eq!(message(&result), "Block 18446744073709551615 not found");
    assert_eq!(with.fetches.len(), 1);
    assert_eq!(with.fetches[0].1, u64::MAX);
}

#[test]
fn each_collaborator_is_asked_once_and_in_order() {
    let ethereum = network("Ethereum", "ethereum_mainnet", BlockChainType::EVM);
    let resolved = monitor("m1", &["stellar_testnet", "ethereum_mainnet"]);
    let monitors = vec![monitor("m0", &["ethereum_mainnet"]), resolved.clone()];
    let client = Client { kind: ClientKind::Evm, network: "ethereum_mainnet".to_string() };
    let block = Block { number: 21305050, transactions: hashes(&["0x01", "0x02"]) };

    let mut step: Step<Client, Block> =
        execute_monitor("m1", "ethereum_mainnet", &21305050, monitors);
    let mut seen = Vec::new();
    let result = loop {
        step = match step {
            Step::LookupNetwork(pending) => {
                seen.push("lookup");
                assert_eq!(pending.network_slug(), "ethereum_mainnet");
                assert_eq!(pending.target().block_number, 21305050);
                pending.resolved(Some(ethereum.clone()))
            }
            Step::AcquireClient(pending) => {
                seen.push("acquire");
                assert_eq!(pending.kind(), ClientKind::Evm);
                assert_eq!(pending.network(), &ethereum);
                assert_eq!(pending.dispatch().target.monitor, resolved);
                pending.acquired(Ok(client.clone()))
            }
            Step::FetchBlock(pending) => {
                seen.push("fetch");
                assert_eq!(pending.kind(), ClientKind::Evm);
                assert_eq!(pending.client(), &client);
                assert_eq!(pending.block_number(), 21305050);
                assert_eq!(pending.dispatch().network, ethereum);
                pending.fetched(Ok(Some(block.clone())))
            }
            Step::FilterBlock(pending) => {
                seen.push("filter");
                assert_eq!(pending.kind(), ClientKind::Evm);
                assert_eq!(pending.client(), &client);
                assert_eq!(pending.network(), &ethereum);
                assert_eq!(pending.block(), &block);
                assert_eq!(pending.monitors(), vec![resolved.clone()]);
                assert_eq!(pending.dispatch().target.position, 1);
                pending.filtered(Ok(vec![transfer("0x01"), transfer("0x02")]))
            }
            Step::Finished(result) => break result,
        };
    };
    assert_eq!(seen, vec!["lookup", "acquire", "fetch", "filter"]);
    assert_eq!(decode(&result.unwrap()).len(), 2);
}

#[test]
fn engine_gets_the_client_the_network_the_block_and_one_monitor() {
    let mut with = Collaborators::new(vec![
        network("Ethereum", "ethereum_mainnet", BlockChainType::EVM),
        network("Stellar", "stellar_testnet", BlockChainType::Stellar),
    ]);
    with.transactions = Some(hashes(&["a1", "b2", "c3"]));
    let resolved = monitor("m2", &["ethereum_mainnet", "stellar_testnet"]);
    let monitors = vec![
        monitor("m1", &["ethereum_mainnet"]),
        resolved.clone(),
        monitor("m3", &["stellar_testnet"]),
    ];
    let result = run("m2", "stellar_testnet", 172627, monitors, &mut with);
    assert_eq!(result, Ok("[]".to_string()));

    let stellar = network("Stellar", "stellar_testnet", BlockChainType::Stellar);
    let client = Client { kind: ClientKind::Stellar, network: "stellar_testnet".to_string() };
    assert_eq!(with.lookups, vec!["stellar_testnet".to_string()]);
    assert_eq!(with.acquisitions, vec![(ClientKind::Stellar, stellar.clone())]);
    assert_eq!(with.fetches, vec![(client.clone(), 172627)]);
    assert_eq!(
        with.filterings,
        vec![Filtering {
            client,
            network: stellar,
            block: Block { number: 172627, transactions: hashes(&["a1", "b2", "c3"]) },
            monitors: vec![resolved],
        }]
    );
}

#[test]
fn matches_come_back_as_one_json_array() {
    let mut with = ethereum();
    with.transactions = Some(hashes(&["0x01", "0x02", "0x03", "0x04"]));
    with.matching = hashes(&["0x01", "0x02", "0x03"]);
    let result =
        run("m1", "ethereum_mainnet", 5, vec![monitor("m1", &["ethereum_mainnet"])], &mut with);
    let text = result.unwrap();
    assert_eq!(
        text,
        "[{\"transaction\":\"0x01\",\"value\":7},{\"transaction\":\"0x02\",\"value\":7},{\"transaction\":\"0x03\",\"value\":7}]"
    );
    let decoded = decode(&text);
    assert_eq!(decoded.len(), 3);
    assert_eq!(decoded, vec![transfer("0x01"), transfer("0x02"), transfer("0x03")]);
}

#[test]
fn as_many_elements_as_matches() {
    for count in [1usize, 2, 5, 40] {
        let mut with = ethereum();
        let all: Vec<String> = (0..count).map(|i| format!("0x{:x}", i)).collect();
        with.transactions = Some(all.clone());
        with.matching = all;
        let result =
            run("m1", "ethereum_mainnet", 5, vec![monitor("m1", &["ethereum_mainnet"])], &mut with);
        assert_eq!(decode(&result.unwrap()).len(), count);
    }
}

#[test]
fn no_matches_are_an_empty_array() {
    let mut with = stellar();
    with.transactions = Some(hashes(&["a1"]));
    let result = run(
        "m2",
        "stellar_testnet",
        172627,
        vec![monitor("m2", &["stellar_testnet"])],
        &mut with,
    );
    assert_eq!(result, Ok("[]".to_string()));
}

#[test]
fn matches_of_every_json_shape_are_encoded() {
    let found = vec![
        MonitorMatch::Null,
        MonitorMatch::Bool(true),
        MonitorMatch::from(-3i64),
        MonitorMatch::from("a \"quoted\" word"),
        MonitorMatch::Array(vec![MonitorMatch::from(1u64), MonitorMatch::Null]),
        transfer("0xff"),
    ];
    let step: Step<Client, Block> =
        execute_monitor("m1", "ethereum_mainnet", &5, vec![monitor("m1", &["ethereum_mainnet"])]);
    let step: Step<Client, Block> = match step {
        Step::LookupNetwork(pending) => {
            pending.resolved(Some(network("Ethereum", "ethereum_mainnet", BlockChainType::EVM)))
        }
        other => panic!("the network was to be looked up: {:?}", other),
    };
    let step: Step<Client, Block> = match step {
        Step::AcquireClient(pending) => pending.acquired(Ok(Client {
            kind: ClientKind::Evm,
            network: "ethereum_mainnet".to_string(),
        })),
        other => panic!("a client was to be acquired: {:?}", other),
    };
    let step: Step<Client, Block> = match step {
        Step::FetchBlock(pending) => {
            pending.fetched(Ok(Some(Block { number: 5, transactions: Vec::new() })))
        }
        other => panic!("the block was to be fetched: {:?}", other),
    };
    let step = match step {
        Step::FilterBlock(pending) => pending.filtered(Ok(found)),
        other => panic!("the block was to be filtered: {:?}", other),
    };
    match step {
        Step::Finished(Ok(text)) => {
            assert_eq!(
                text,
                "[null,true,-3,\"a \\\"quoted\\\" word\",[1,null],{\"transaction\":\"0xff\",\"value\":7}]"
            );
            assert_eq!(decode(&text).len(), 6);
        }
        other => panic!("the execution was to succeed: {:?}", other),
    }
}

#[test]
fn paused_monitor_is_executed_like_any_other() {
    let mut with = ethereum();
    with.transactions = Some(hashes(&["0x01"]));
    with.matching = hashes(&["0x01"]);
    let mut paused = monitor("m1", &["ethereum_mainnet"]);
    paused.paused = true;
    let result = run("m1", "ethereum_mainnet", 5, vec![paused.clone()], &mut with);
    assert_eq!(decode(&result.unwrap()).len(), 1);
    assert_eq!(with.filterings[0].monitors, vec![paused]);
}

#[test]
fn names_are_compared_exactly() {
    let mut with = ethereum();
    for name in ["M1", "m1 ", "m", "m11", ""] {
        let result =
            run(name, "ethereum_mainnet", 5, vec![monitor("m1", &["ethereum_mainnet"])], &mut with);
        assert_eq!(kind(&result), ErrorKind::NotFound);
        assert_eq!(message(&result), format!("Monitor '{}' not found", name));
    }
    for slug in ["ethereum_mainne", "Ethereum_mainnet", "ethereum_mainnet2", ""] {
        let result = run("m1", slug, 5, vec![monitor("m1", &["ethereum_mainnet"])], &mut with);
        assert_eq!(kind(&result), ErrorKind::NotFound);
        assert_eq!(message(&result), format!("Network '{}' not configured for monitor 'm1'", slug));
    }
    assert_eq!(with.asked(), 0);
}

#[test]
fn one_failure_ends_the_execution() {
    // Every later collaborator would fail too; only the first failure shows.
    let mut with = ethereum();
    with.pool_failure = Some("pool is closed".to_string());
    with.client_failure = Some("node is down".to_string());
    with.engine_failure = Some("engine is off".to_string());
    let result =
        run("m1", "ethereum_mainnet", 5, vec![monitor("m1", &["ethereum_mainnet"])], &mut with);
    assert_eq!(message(&result), "Failed to get EVM client: pool is closed");
    assert_eq!(with.asked(), 2);

    with.pool_failure = None;
    let result =
        run("m1", "ethereum_mainnet", 5, vec![monitor("m1", &["ethereum_mainnet"])], &mut with);
    assert_eq!(message(&result), "Failed to get block 5: node is down");
    assert_eq!(with.filterings.len(), 0);
}
