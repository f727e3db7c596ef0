//! One execution of a monitor against one block, as a sequence of steps.
//!
//! An execution starts with [`execute_monitor`], which resolves the monitor
//! and checks that it is bound to the requested network. From there each
//! [`Step`] either names the one collaborator that is to be asked next or is
//! finished. The caller performs the request and hands the answer to the
//! pending step, which gives the next step:
//!
//! ```text
//! execute_monitor -> LookupNetwork -> AcquireClient -> FetchBlock -> FilterBlock -> Finished(Ok)
//!        |                |                |               |              |
//!        +----------------+----------------+---------------+--------------+--> Finished(Err)
//! ```
//!
//! A failure at any stage finishes the execution at once; nothing is asked
//! twice, and nothing is asked after a failure.
//!
//! The client that the pool gives and the block that the client gives are
//! carried from the step that receives them to the steps that need them. What
//! they are is left to the caller: a step is generic in the type `C` of a
//! client and in the type `B` of a block, and reads neither.
//!
//! A caller with collaborators `registry`, `pool` and `engine` runs an
//! execution like this:
//!
//! ```text
//! let mut step: Step<Client, Block> = execute_monitor(name, slug, &number, monitors);
//! let result = loop {
//!     step = match step {
//!         Step::LookupNetwork(pending) => {
//!             let found = registry.get(pending.network_slug());
//!             pending.resolved(found)
//!         }
//!         Step::AcquireClient(pending) => {
//!             let client = pool.get_client(pending.kind(), pending.network());
//!             pending.acquired(client)
//!         }
//!         Step::FetchBlock(pending) => {
//!             let block = pending.client().get_block_by_number(pending.block_number());
//!             pending.fetched(block)
//!         }
//!         Step::FilterBlock(pending) => {
//!             let matches = engine.filter_block(
//!                 pending.client(),
//!                 pending.network(),
//!                 pending.block(),
//!                 &pending.monitors(),
//!             );
//!             pending.filtered(matches)
//!         }
//!         Step::Finished(result) => break result,
//!     };
//! };
//! ```

use crate::encoding::{encode_matches, json_array_text, MonitorMatch};
use crate::error::{execution_error, not_found, ErrorView, ExecutionResult, MonitorExecutionError};
use crate::model::{BlockChainType, Monitor, MonitorView, Network, NetworkView};
use crate::text::{
    block_not_found_message, block_not_found_text, block_stage, block_stage_label,
    chain_not_supported_message, chain_not_supported_text, client_stage, client_stage_label,
    failure_message, failure_text, filter_stage, filter_stage_label, monitor_not_found_message,
    monitor_not_found_text, network_not_configured_message, network_not_configured_text,
    network_not_found_message, network_not_found_text,
};
use vstd::prelude::*;

verus! {

/// A chain kind for which a client can be acquired.
#[derive(Clone, Copy, Debug, PartialEq, Eq, Structural)]
pub enum ClientKind {
    Evm,
    Stellar,
}

impl ClientKind {
    /// The chain kind that this client serves.
    pub open spec fn chain(self) -> BlockChainType {
        match self {
            ClientKind::Evm => BlockChainType::EVM,
            ClientKind::Stellar => BlockChainType::Stellar,
        }
    }

    /// The client for a chain kind, where there is one.
    pub open spec fn of(chain: BlockChainType) -> Option<ClientKind> {
        match chain {
            BlockChainType::EVM => Some(ClientKind::Evm),
            BlockChainType::Stellar => Some(ClientKind::Stellar),
            BlockChainType::Midnight => None,
            BlockChainType::Solana => None,
        }
    }

    /// The chain kind that this client serves.
    pub fn chain_type(&self) -> (chain: BlockChainType)
        ensures
            chain == self.chain(),
    {
        match self {
            ClientKind::Evm => BlockChainType::EVM,
            ClientKind::Stellar => BlockChainType::Stellar,
        }
    }

    /// The client for a chain kind, where there is one.
    pub fn for_chain(chain: BlockChainType) -> (kind: Option<ClientKind>)
        ensures
            kind == ClientKind::of(chain),
    {
        match chain {
            BlockChainType::EVM => Some(ClientKind::Evm),
            BlockChainType::Stellar => Some(ClientKind::Stellar),
            BlockChainType::Midnight => None,
            BlockChainType::Solana => None,
        }
    }
}

/// What an execution is about, as a mathematical value.
pub struct TargetView {
    pub monitor: MonitorView,
    pub position: int,
    pub network_slug: Seq<char>,
    pub block_number: u64,
}

/// What an execution is about: the resolved monitor, the network it is to
/// run on and the block to look at.
#[derive(Debug, PartialEq, Eq)]
pub struct Target {
    /// The monitor that the requested name resolved to.
    pub monitor: Monitor,
    /// Where that monitor stands among the active monitors.
    pub position: usize,
    /// The requested network.
    pub network_slug: String,
    /// The requested block.
    pub block_number: u64,
}

impl View for Target {
    type V = TargetView;

    open spec fn view(&self) -> TargetView {
        TargetView {
            monitor: self.monitor@,
            position: self.position as int,
            network_slug: self.network_slug@,
            block_number: self.block_number,
        }
    }
}

/// A target on a resolved network, as a mathematical value.
pub struct DispatchView {
    pub target: TargetView,
    pub network: NetworkView,
    pub kind: ClientKind,
}

/// A target whose network is resolved and has a client.
#[derive(Debug, PartialEq, Eq)]
pub struct Dispatch {
    pub target: Target,
    /// The configuration that the registry holds for the requested network.
    pub network: Network,
    /// The client that serves this network's chain kind.
    pub kind: ClientKind,
}

impl View for Dispatch {
    type V = DispatchView;

    open spec fn view(&self) -> DispatchView {
        DispatchView { target: self.target@, network: self.network@, kind: self.kind }
    }
}

/// A pending retrieval as a mathematical value.
pub struct RetrievalView<C> {
    pub dispatch: DispatchView,
    pub client: C,
}

/// A pending filtering as a mathematical value.
pub struct FilteringView<C, B> {
    pub dispatch: DispatchView,
    pub client: C,
    pub block: B,
}

/// A step as a mathematical value.
pub enum StepView<C, B> {
    LookupNetwork(TargetView),
    AcquireClient(DispatchView),
    FetchBlock(RetrievalView<C>),
    FilterBlock(FilteringView<C, B>),
    Finished(Result<Seq<char>, ErrorView>),
}

/// Where an execution stands: the one request that is pending, or the end.
#[derive(Debug)]
pub enum Step<C, B> {
    /// The monitor is resolved and bound to the requested network. The
    /// registry is to be asked for that network.
    LookupNetwork(NetworkLookup),
    /// The network is resolved. The client pool is to be asked for a client
    /// of its chain kind.
    AcquireClient(ClientAcquisition),
    /// The client is acquired. It is to be asked for the requested block.
    FetchBlock(BlockRetrieval<C>),
    /// The block is fetched. The filtering engine is to be asked for the
    /// matches of the monitor in it.
    FilterBlock(BlockFiltering<C, B>),
    /// Nothing is pending: the matches are serialized to their JSON text, or
    /// the execution has failed with its one error.
    Finished(ExecutionResult<String>),
}

/// Pending: the lookup of the requested network in the registry.
#[derive(Debug)]
pub struct NetworkLookup {
    target: Target,
}

/// Pending: the acquisition of a client from the pool.
#[derive(Debug)]
pub struct ClientAcquisition {
    dispatch: Dispatch,
}

/// Pending: the retrieval of the requested block through the client.
#[derive(Debug)]
pub struct BlockRetrieval<C> {
    dispatch: Dispatch,
    client: C,
}

/// Pending: the filtering of the block by the filtering engine.
#[derive(Debug)]
pub struct BlockFiltering<C, B> {
    dispatch: Dispatch,
    client: C,
    block: B,
}

impl View for NetworkLookup {
    type V = TargetView;

    closed spec fn view(&self) -> TargetView {
        self.target@
    }
}

impl View for ClientAcquisition {
    type V = DispatchView;

    closed spec fn view(&self) -> DispatchView {
        self.dispatch@
    }
}

impl<C> View for BlockRetrieval<C> {
    type V = RetrievalView<C>;

    closed spec fn view(&self) -> RetrievalView<C> {
        RetrievalView { dispatch: self.dispatch@, client: self.client }
    }
}

impl<C, B> View for BlockFiltering<C, B> {
    type V = FilteringView<C, B>;

    closed spec fn view(&self) -> FilteringView<C, B> {
        FilteringView { dispatch: self.dispatch@, client: self.client, block: self.block }
    }
}

/// A result as a mathematical value.
pub open spec fn result_view(result: ExecutionResult<String>) -> Result<Seq<char>, ErrorView> {
    match result {
        Ok(text) => Ok(text@),
        Err(error) => Err(error@),
    }
}

impl<C, B> View for Step<C, B> {
    type V = StepView<C, B>;

    open spec fn view(&self) -> StepView<C, B> {
        match self {
            Step::LookupNetwork(pending) => StepView::LookupNetwork(pending@),
            Step::AcquireClient(pending) => StepView::AcquireClient(pending@),
            Step::FetchBlock(pending) => StepView::FetchBlock(pending@),
            Step::FilterBlock(pending) => StepView::FilterBlock(pending@),
            Step::Finished(result) => StepView::Finished(result_view(*result)),
        }
    }
}

impl<C, B> Step<C, B> {
    /// The end of an execution that succeeded: `text` is the JSON text of
    /// its matches.
    pub fn serialized(text: String) -> (step: Self)
        ensures
            step@ == StepView::<C, B>::Finished(Ok(text@)),
    {
        Step::Finished(Ok(text))
    }

    /// The end of an execution that failed with `error`.
    pub fn failed(error: MonitorExecutionError) -> (step: Self)
        ensures
            step@ == StepView::<C, B>::Finished(Err(error@)),
    {
        Step::Finished(Err(error))
    }

    /// Whether nothing is pending.
    pub fn is_finished(&self) -> (yes: bool)
        ensures
            yes == (self@ is Finished),
    {
        match self {
            Step::Finished(_) => true,
            _ => false,
        }
    }
}

/// The monitors of a list as mathematical values, in the same order.
pub open spec fn monitor_views(monitors: Seq<Monitor>) -> Seq<MonitorView> {
    Seq::new(monitors.len(), |i: int| monitors[i]@)
}

/// The names of the monitors of a list, in the same order.
pub open spec fn monitor_names(monitors: Seq<MonitorView>) -> Seq<Seq<char>> {
    Seq::new(monitors.len(), |i: int| monitors[i].name)
}

/// Where the first monitor of that name stands, if there is any.
pub open spec fn position_of(monitors: Seq<MonitorView>, name: Seq<char>) -> Option<int> {
    monitor_names(monitors).index_of_first(name)
}

/// What `position_of` gives is the least position at which a monitor bears
/// the name, and nothing where no monitor bears it.
pub proof fn position_of_is_first(monitors: Seq<MonitorView>, name: Seq<char>)
    ensures
        match position_of(monitors, name) {
            Some(position) => {
                &&& 0 <= position < monitors.len()
                &&& monitors[position].name == name
                &&& forall|i: int| 0 <= i < position ==> monitors[i].name != name
            },
            None => forall|i: int| 0 <= i < monitors.len() ==> monitors[i].name != name,
        },
{
    let names = monitor_names(monitors);
    names.index_of_first_ensures(name);
    match position_of(monitors, name) {
        Some(position) => {
            assert forall|i: int| 0 <= i < position implies monitors[i].name != name by {
                assert(names[i] != name);
            }
        },
        None => {
            assert forall|i: int| 0 <= i < monitors.len() implies monitors[i].name != name by {
                assert(names[i] == monitors[i].name);
            }
        },
    }
}

/// Where names are unique, as they are among stored monitors, the monitor
/// that bears a name is the one that the name resolves to.
pub proof fn unique_name_resolves(monitors: Seq<MonitorView>, name: Seq<char>, position: int)
    requires
        0 <= position < monitors.len(),
        monitors[position].name == name,
        forall|i: int| 0 <= i < monitors.len() && i != position ==> monitors[i].name != name,
    ensures
        position_of(monitors, name) == Some(position),
{
    position_of_is_first(monitors, name);
}

/// The first step of an execution: the monitor is resolved by its name, then
/// checked to be bound to the requested network. Only then is anything asked.
pub open spec fn begin<C, B>(
    monitor_name: Seq<char>,
    network_slug: Seq<char>,
    block_number: u64,
    active_monitors: Seq<MonitorView>,
) -> StepView<C, B> {
    match position_of(active_monitors, monitor_name) {
        None => StepView::Finished(Err(not_found(monitor_not_found_text(monitor_name)))),
        Some(position) => {
            let monitor = active_monitors[position];
            if monitor.networks.contains(network_slug) {
                StepView::LookupNetwork(
                    TargetView { monitor, position, network_slug, block_number },
                )
            } else {
                StepView::Finished(
                    Err(not_found(network_not_configured_text(network_slug, monitor_name))),
                )
            }
        },
    }
}

/// The step after the registry has answered.
pub open spec fn network_resolved<C, B>(
    target: TargetView,
    found: Option<NetworkView>,
) -> StepView<C, B> {
    match found {
        None => StepView::Finished(Err(not_found(network_not_found_text(target.network_slug)))),
        Some(network) => match ClientKind::of(network.network_type) {
            Some(kind) => StepView::AcquireClient(DispatchView { target, network, kind }),
            None => StepView::Finished(
                Err(execution_error(chain_not_supported_text(network.network_type))),
            ),
        },
    }
}

/// The step after the client pool has answered.
pub open spec fn client_acquired<C, B>(
    dispatch: DispatchView,
    outcome: Result<C, Seq<char>>,
) -> StepView<C, B> {
    match outcome {
        Ok(client) => StepView::FetchBlock(RetrievalView { dispatch, client }),
        Err(cause) => StepView::Finished(
            Err(execution_error(failure_text(client_stage(dispatch.kind.chain()), cause))),
        ),
    }
}

/// The step after the client has answered.
pub open spec fn block_fetched<C, B>(
    retrieval: RetrievalView<C>,
    outcome: Result<Option<B>, Seq<char>>,
) -> StepView<C, B> {
    let number = retrieval.dispatch.target.block_number;
    match outcome {
        Ok(Some(block)) => StepView::FilterBlock(
            FilteringView { dispatch: retrieval.dispatch, client: retrieval.client, block },
        ),
        Ok(None) => StepView::Finished(Err(execution_error(block_not_found_text(number)))),
        Err(cause) => StepView::Finished(
            Err(execution_error(failure_text(block_stage(number), cause))),
        ),
    }
}

/// The step after the filtering engine has answered.
pub open spec fn block_filtered<C, B>(
    filtering: FilteringView<C, B>,
    outcome: Result<Seq<MonitorMatch>, Seq<char>>,
) -> StepView<C, B> {
    match outcome {
        Ok(matches) => StepView::Finished(Ok(json_array_text(matches))),
        Err(cause) => StepView::Finished(
            Err(execution_error(failure_text(filter_stage(), cause))),
        ),
    }
}

/// A registry's answer as a mathematical value.
pub open spec fn lookup_view(found: Option<Network>) -> Option<NetworkView> {
    match found {
        Some(network) => Some(network@),
        None => None,
    }
}

/// A collaborator's answer as a mathematical value: what it gave, or the
/// cause of its failure.
pub open spec fn outcome_view<T>(outcome: Result<T, String>) -> Result<T, Seq<char>> {
    match outcome {
        Ok(value) => Ok(value),
        Err(cause) => Err(cause@),
    }
}

/// A filtering engine's answer as a mathematical value.
pub open spec fn matches_view(
    outcome: Result<Vec<MonitorMatch>, String>,
) -> Result<Seq<MonitorMatch>, Seq<char>> {
    match outcome {
        Ok(matches) => Ok(matches@),
        Err(cause) => Err(cause@),
    }
}

/// Where the first monitor of that name stands among `monitors`.
pub fn find_monitor(monitors: &Vec<Monitor>, name: &str) -> (found: Option<usize>)
    ensures
        match found {
            Some(position) => position < monitors.len() && position_of(
                monitor_views(monitors@),
                name@,
            ) == Some(position as int),
            None => position_of(monitor_views(monitors@), name@) is None,
        },
{
    let wanted = String::from_str(name);
    let ghost names = monitor_names(monitor_views(monitors@));
    let mut i: usize = 0;
    while i < monitors.len()
        invariant
            i <= monitors.len(),
            wanted@ == name@,
            names == monitor_names(monitor_views(monitors@)),
            forall|j: int| 0 <= j < i ==> names[j] != name@,
        decreases monitors.len() - i,
    {
        if monitors[i].name == wanted {
            proof {
                assert(names[i as int] == name@);
                names.index_of_first_ensures(name@);
            }
            return Some(i);
        }
        i += 1;
    }
    proof {
        names.index_of_first_ensures(name@);
    }
    None
}

/// Starts the execution of the monitor named `monitor_name` against block
/// `block_number` of the network `network_slug`.
///
/// The monitor is the first of that name among `active_monitors`. Where there
/// is none, or where it is not bound to the network, the execution is
/// finished with an error of kind `NotFound` and nothing is asked of any
/// collaborator. Otherwise the registry is to be asked for the network.
pub fn execute_monitor<C, B>(
    monitor_name: &str,
    network_slug: &str,
    block_number: &u64,
    active_monitors: Vec<Monitor>,
) -> (step: Step<C, B>)
    ensures
        step@ == begin::<C, B>(
            monitor_name@,
            network_slug@,
            *block_number,
            monitor_views(active_monitors@),
        ),
{
    match find_monitor(&active_monitors, monitor_name) {
        None => Step::failed(
            MonitorExecutionError::not_found(monitor_not_found_message(monitor_name), None),
        ),
        Some(position) => {
            let monitor = &active_monitors[position];
            if monitor.runs_on(network_slug) {
                Step::LookupNetwork(
                    NetworkLookup {
                        target: Target {
                            monitor: monitor.clone(),
                            position,
                            network_slug: String::from_str(network_slug),
                            block_number: *block_number,
                        },
                    },
                )
            } else {
                Step::failed(
                    MonitorExecutionError::not_found(
                        network_not_configured_message(network_slug, monitor_name),
                        None,
                    ),
                )
            }
        },
    }
}

/// The error that a collaborator's failure at a stage becomes.
fn stage_failure<C, B>(stage: String, cause: &str) -> (step: Step<C, B>)
    ensures
        step@ == StepView::<C, B>::Finished(Err(execution_error(failure_text(stage@, cause@)))),
{
    Step::failed(MonitorExecutionError::execution_error(failure_message(stage, cause), None))
}

impl NetworkLookup {
    /// What this execution is about.
    pub fn target(&self) -> (target: &Target)
        ensures
            target@ == self@,
    {
        &self.target
    }

    /// The slug to look up in the registry.
    pub fn network_slug(&self) -> (slug: &String)
        ensures
            slug@ == self@.network_slug,
    {
        &self.target.network_slug
    }

    /// Takes the registry's answer: the configuration registered under the
    /// slug, if there is one.
    ///
    /// Without a configuration the execution is finished with `NotFound`.
    /// With one whose chain kind has no client it is finished with
    /// `ExecutionError`. Otherwise a client is to be acquired.
    pub fn resolved<C, B>(self, found: Option<Network>) -> (step: Step<C, B>)
        ensures
            step@ == network_resolved::<C, B>(self@, lookup_view(found)),
    {
        match found {
            None => Step::failed(
                MonitorExecutionError::not_found(
                    network_not_found_message(self.target.network_slug.as_str()),
                    None,
                ),
            ),
            Some(network) => match ClientKind::for_chain(network.network_type) {
                Some(kind) => Step::AcquireClient(
                    ClientAcquisition { dispatch: Dispatch { target: self.target, network, kind } },
                ),
                None => Step::failed(
                    MonitorExecutionError::execution_error(
                        chain_not_supported_message(network.network_type),
                        None,
                    ),
                ),
            },
        }
    }
}

impl ClientAcquisition {
    /// What this execution is about, and on which network.
    pub fn dispatch(&self) -> (dispatch: &Dispatch)
        ensures
            dispatch@ == self@,
    {
        &self.dispatch
    }

    /// The kind of client to ask the pool for.
    pub fn kind(&self) -> (kind: ClientKind)
        ensures
            kind == self@.kind,
    {
        self.dispatch.kind
    }

    /// The network configuration to hand to the pool.
    pub fn network(&self) -> (network: &Network)
        ensures
            network@ == self@.network,
    {
        &self.dispatch.network
    }

    /// Takes the pool's answer: the client, or why there is none.
    pub fn acquired<C, B>(self, outcome: Result<C, String>) -> (step: Step<C, B>)
        ensures
            step@ == client_acquired::<C, B>(self@, outcome_view(outcome)),
    {
        match outcome {
            Ok(client) => Step::FetchBlock(BlockRetrieval { dispatch: self.dispatch, client }),
            Err(cause) => stage_failure(
                client_stage_label(self.dispatch.kind.chain_type()),
                cause.as_str(),
            ),
        }
    }
}

impl<C> BlockRetrieval<C> {
    /// What this execution is about, and on which network.
    pub fn dispatch(&self) -> (dispatch: &Dispatch)
        ensures
            dispatch@ == self@.dispatch,
    {
        &self.dispatch
    }

    /// The kind of the client that is to be asked.
    pub fn kind(&self) -> (kind: ClientKind)
        ensures
            kind == self@.dispatch.kind,
    {
        self.dispatch.kind
    }

    /// The client to ask: the one that the pool gave.
    pub fn client(&self) -> (client: &C)
        ensures
            *client == self@.client,
    {
        &self.client
    }

    /// The number of the block to ask the client for.
    pub fn block_number(&self) -> (number: u64)
        ensures
            number == self@.dispatch.target.block_number,
    {
        self.dispatch.target.block_number
    }

    /// Takes the client's answer: the block, that the chain has no such
    /// block, or why the request failed.
    pub fn fetched<B>(self, outcome: Result<Option<B>, String>) -> (step: Step<C, B>)
        ensures
            step@ == block_fetched(self@, outcome_view(outcome)),
    {
        match outcome {
            Ok(Some(block)) => Step::FilterBlock(
                BlockFiltering { dispatch: self.dispatch, client: self.client, block },
            ),
            Ok(None) => Step::failed(
                MonitorExecutionError::execution_error(
                    block_not_found_message(self.dispatch.target.block_number),
                    None,
                ),
            ),
            Err(cause) => stage_failure(
                block_stage_label(self.dispatch.target.block_number),
                cause.as_str(),
            ),
        }
    }
}

impl<C, B> BlockFiltering<C, B> {
    /// What this execution is about, and on which network.
    pub fn dispatch(&self) -> (dispatch: &Dispatch)
        ensures
            dispatch@ == self@.dispatch,
    {
        &self.dispatch
    }

    /// The kind of the client that fetched the block.
    pub fn kind(&self) -> (kind: ClientKind)
        ensures
            kind == self@.dispatch.kind,
    {
        self.dispatch.kind
    }

    /// The client to hand to the filtering engine: the one that the pool
    /// gave.
    pub fn client(&self) -> (client: &C)
        ensures
            *client == self@.client,
    {
        &self.client
    }

    /// The network configuration to hand to the filtering engine.
    pub fn network(&self) -> (network: &Network)
        ensures
            network@ == self@.dispatch.network,
    {
        &self.dispatch.network
    }

    /// The block to hand to the filtering engine: the one that the client
    /// gave.
    pub fn block(&self) -> (block: &B)
        ensures
            *block == self@.block,
    {
        &self.block
    }

    /// The monitors to hand to the filtering engine: the resolved monitor
    /// and no other.
    pub fn monitors(&self) -> (monitors: Vec<Monitor>)
        ensures
            monitor_views(monitors@) == seq![self@.dispatch.target.monitor],
    {
        let mut monitors: Vec<Monitor> = Vec::new();
        monitors.push(self.dispatch.target.monitor.clone());
        assert(monitor_views(monitors@) =~= seq![self@.dispatch.target.monitor]);
        monitors
    }

    /// Takes the filtering engine's answer: the matches, or why it failed.
    ///
    /// The matches end the execution as one JSON array.
    pub fn filtered(self, outcome: Result<Vec<MonitorMatch>, String>) -> (step: Step<C, B>)
        ensures
            step@ == block_filtered(self@, matches_view(outcome)),
    {
        match outcome {
            Ok(matches) => Step::serialized(encode_matches(&matches)),
            Err(cause) => stage_failure(filter_stage_label(), cause.as_str()),
        }
    }
}

} // verus!
