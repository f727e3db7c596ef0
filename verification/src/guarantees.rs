//! What holds of every execution, whatever the collaborators answer.
//!
//! One execution asks each collaborator at most once, so what they answer
//! during it is a record of four answers. Given what was requested and such
//! a record, the steps of the execution are determined; the statements below
//! are about them.

use crate::encoding::{json_array_text, MonitorMatch};
use crate::error::{execution_error, not_found, ErrorKind, ErrorView};
use crate::execution::{
    begin, block_fetched, block_filtered, client_acquired, network_resolved, position_of,
    position_of_is_first, StepView,
};
use crate::model::{BlockChainType, MonitorView, NetworkView};
use crate::text::{
    block_not_found_text, block_stage, chain_not_supported_text, client_stage, failure_text,
    filter_stage, monitor_not_found_text, network_not_configured_text, network_not_found_text,
};
use vstd::prelude::*;

verus! {

/// What is requested of one execution.
pub struct Call {
    pub monitor_name: Seq<char>,
    pub network_slug: Seq<char>,
    pub block_number: u64,
    pub active_monitors: Seq<MonitorView>,
}

/// What the collaborators answer during one execution, each where it is
/// asked.
pub struct Answers<C, B> {
    /// The registry: the configuration of the requested network, if any.
    pub network: Option<NetworkView>,
    /// The client pool: a client, or the cause of its failure.
    pub client: Result<C, Seq<char>>,
    /// The client: the block, no such block, or the cause of its failure.
    pub block: Result<Option<B>, Seq<char>>,
    /// The filtering engine: the matches, or the cause of its failure.
    pub matches: Result<Seq<MonitorMatch>, Seq<char>>,
}

/// The step that follows `step` once its request is answered.
pub open spec fn answered<C, B>(step: StepView<C, B>, answers: Answers<C, B>) -> StepView<C, B> {
    match step {
        StepView::LookupNetwork(target) => network_resolved(target, answers.network),
        StepView::AcquireClient(dispatch) => client_acquired(dispatch, answers.client),
        StepView::FetchBlock(retrieval) => block_fetched(retrieval, answers.block),
        StepView::FilterBlock(filtering) => block_filtered(filtering, answers.matches),
        StepView::Finished(result) => StepView::Finished(result),
    }
}

/// The step at which an execution stands after `count` answers.
pub open spec fn step_at<C, B>(call: Call, answers: Answers<C, B>, count: nat) -> StepView<C, B>
    decreases count,
{
    if count == 0 {
        begin(call.monitor_name, call.network_slug, call.block_number, call.active_monitors)
    } else {
        answered(step_at(call, answers, (count - 1) as nat), answers)
    }
}

/// What an execution returns: where it stands after the four answers that it
/// can ask for at most.
pub open spec fn outcome<C, B>(call: Call, answers: Answers<C, B>) -> Result<Seq<char>, ErrorView> {
    step_at(call, answers, 4)->Finished_0
}

/// Whether the requested monitor exists and is bound to the requested
/// network.
pub open spec fn is_bound(call: Call) -> bool {
    match position_of(call.active_monitors, call.monitor_name) {
        Some(position) => call.active_monitors[position].networks.contains(call.network_slug),
        None => false,
    }
}

/// The stages follow one another in one order, each is asked at most once,
/// and after four answers at the latest the execution is finished.
pub proof fn stages_are_ordered<C, B>(call: Call, answers: Answers<C, B>, count: nat)
    ensures
        ({
            let step = step_at(call, answers, count);
            &&& step is LookupNetwork ==> count == 0
            &&& step is AcquireClient ==> count == 1
            &&& step is FetchBlock ==> count == 2
            &&& step is FilterBlock ==> count == 3
            &&& count >= 4 ==> step is Finished
        }),
    decreases count,
{
    if count > 0 {
        stages_are_ordered(call, answers, (count - 1) as nat);
    }
}

/// How far an execution gets is decided by what was answered before: the
/// network is looked up for a bound monitor, a client is acquired where the
/// network is registered with a chain kind that has one, the block is
/// fetched where the pool gave a client, and it is filtered where the client
/// gave the block.
pub proof fn stages_are_reached<C, B>(call: Call, answers: Answers<C, B>)
    ensures
        step_at(call, answers, 0) is LookupNetwork <==> is_bound(call),
        step_at(call, answers, 1) is AcquireClient <==> is_bound(call) && (answers.network matches Some(
            network,
        ) && network.network_type.is_supported()),
        step_at(call, answers, 2) is FetchBlock <==> step_at(call, answers, 1) is AcquireClient
            && answers.client is Ok,
        step_at(call, answers, 3) is FilterBlock <==> step_at(call, answers, 2) is FetchBlock && (
        answers.block matches Ok(Some(_))),
{
    assert(step_at(call, answers, 1) == answered(step_at(call, answers, 0), answers));
    assert(step_at(call, answers, 2) == answered(step_at(call, answers, 1), answers));
    assert(step_at(call, answers, 3) == answered(step_at(call, answers, 2), answers));
    stages_are_ordered(call, answers, 0);
    stages_are_ordered(call, answers, 1);
    stages_are_ordered(call, answers, 2);
}

/// A finished execution stays as it is: once a result is there, nothing
/// more is asked.
pub proof fn finished_is_final<C, B>(call: Call, answers: Answers<C, B>, count: nat, later: nat)
    requires
        step_at(call, answers, count) is Finished,
        count <= later,
    ensures
        step_at(call, answers, later) == step_at(call, answers, count),
    decreases later,
{
    if count < later {
        finished_is_final(call, answers, count, (later - 1) as nat);
    }
}

/// The result with which an execution finishes, however early, is what it
/// returns.
pub proof fn first_result_is_returned<C, B>(call: Call, answers: Answers<C, B>, count: nat)
    requires
        step_at(call, answers, count) is Finished,
    ensures
        outcome(call, answers) == step_at(call, answers, count)->Finished_0,
{
    if count <= 4 {
        finished_is_final(call, answers, count, 4);
    } else {
        stages_are_ordered(call, answers, 4);
        finished_is_final(call, answers, 4, count);
    }
}

/// The engine is asked about the resolved monitor alone, on the network that
/// the registry gave, with the client that the pool gave and the block that
/// the client gave; the client is asked for the requested block.
pub proof fn collaborators_get_what_was_given<C, B>(
    call: Call,
    answers: Answers<C, B>,
    count: nat,
)
    ensures
        match step_at(call, answers, count) {
            StepView::LookupNetwork(target) => {
                &&& position_of(call.active_monitors, call.monitor_name) == Some(target.position)
                &&& target.monitor == call.active_monitors[target.position]
                &&& target.monitor.networks.contains(call.network_slug)
                &&& target.network_slug == call.network_slug
                &&& target.block_number == call.block_number
            },
            StepView::AcquireClient(dispatch) => {
                &&& StepView::<C, B>::LookupNetwork(dispatch.target) == step_at(call, answers, 0)
                &&& answers.network == Some(dispatch.network)
                &&& dispatch.kind.chain() == dispatch.network.network_type
            },
            StepView::FetchBlock(retrieval) => {
                &&& StepView::<C, B>::AcquireClient(retrieval.dispatch) == step_at(
                    call,
                    answers,
                    1,
                )
                &&& answers.client == Ok::<C, Seq<char>>(retrieval.client)
            },
            StepView::FilterBlock(filtering) => {
                &&& StepView::<C, B>::AcquireClient(filtering.dispatch) == step_at(
                    call,
                    answers,
                    1,
                )
                &&& answers.client == Ok::<C, Seq<char>>(filtering.client)
                &&& answers.block == Ok::<Option<B>, Seq<char>>(Some(filtering.block))
            },
            StepView::Finished(_) => true,
        },
    decreases count,
{
    stages_are_ordered(call, answers, count);
    if count > 0 {
        collaborators_get_what_was_given(call, answers, (count - 1) as nat);
        stages_are_ordered(call, answers, (count - 1) as nat);
        if count > 1 {
            collaborators_get_what_was_given(call, answers, (count - 2) as nat);
            stages_are_ordered(call, answers, (count - 2) as nat);
        }
    }
}

/// A name that no active monitor bears ends the execution with `NotFound`
/// before anything is asked of any collaborator.
pub proof fn unknown_monitor_is_not_found<C, B>(call: Call, answers: Answers<C, B>)
    requires
        forall|i: int|
            0 <= i < call.active_monitors.len() ==> call.active_monitors[i].name
                != call.monitor_name,
    ensures
        outcome(call, answers) == Err::<Seq<char>, ErrorView>(
            not_found(monitor_not_found_text(call.monitor_name)),
        ),
        forall|count: nat| #[trigger] step_at(call, answers, count) is Finished,
{
    position_of_is_first(call.active_monitors, call.monitor_name);
    assert forall|count: nat| #[trigger] step_at(call, answers, count) is Finished by {
        finished_is_final(call, answers, 0, count);
    }
    first_result_is_returned(call, answers, 0);
}

/// A monitor that is not bound to the requested network ends the execution
/// with `NotFound` before anything is asked of any collaborator: no network
/// is looked up and no client is acquired.
pub proof fn unbound_network_is_not_found<C, B>(call: Call, answers: Answers<C, B>)
    requires
        position_of(call.active_monitors, call.monitor_name) matches Some(position)
            && !call.active_monitors[position].networks.contains(call.network_slug),
    ensures
        outcome(call, answers) == Err::<Seq<char>, ErrorView>(
            not_found(network_not_configured_text(call.network_slug, call.monitor_name)),
        ),
        forall|count: nat| #[trigger] step_at(call, answers, count) is Finished,
{
    assert forall|count: nat| #[trigger] step_at(call, answers, count) is Finished by {
        finished_is_final(call, answers, 0, count);
    }
    first_result_is_returned(call, answers, 0);
}

/// Where the registry holds no configuration for the requested network, the
/// execution ends with `NotFound`, whatever the monitors are; for a bound
/// monitor the message names the network.
pub proof fn unregistered_network_is_not_found<C, B>(call: Call, answers: Answers<C, B>)
    requires
        answers.network is None,
    ensures
        outcome(call, answers) matches Err(error) && error.kind == ErrorKind::NotFound,
        is_bound(call) ==> outcome(call, answers) == Err::<Seq<char>, ErrorView>(
            not_found(network_not_found_text(call.network_slug)),
        ),
        forall|count: nat|
            !(#[trigger] step_at(call, answers, count) is AcquireClient) && !(step_at(
                call,
                answers,
                count,
            ) is FetchBlock),
{
    assert(step_at(call, answers, 1) == answered(step_at(call, answers, 0), answers));
    first_result_is_returned(call, answers, 1);
    assert forall|count: nat|
        !(#[trigger] step_at(call, answers, count) is AcquireClient) && !(step_at(
            call,
            answers,
            count,
        ) is FetchBlock) by {
        stages_are_ordered(call, answers, count);
        if count >= 1 {
            finished_is_final(call, answers, 1, count);
        }
    }
}

/// An execution ends with `NotFound` exactly where the monitor is unknown or
/// not bound to the network, or the network is not registered. Every other
/// failure is an `ExecutionError`.
pub proof fn not_found_means_not_configured<C, B>(call: Call, answers: Answers<C, B>)
    ensures
        (outcome(call, answers) matches Err(error) && error.kind == ErrorKind::NotFound) <==> (
        !is_bound(call) || answers.network is None),
{
    assert(step_at(call, answers, 1) == answered(step_at(call, answers, 0), answers));
    assert(step_at(call, answers, 2) == answered(step_at(call, answers, 1), answers));
    assert(step_at(call, answers, 3) == answered(step_at(call, answers, 2), answers));
    assert(step_at(call, answers, 4) == answered(step_at(call, answers, 3), answers));
}

/// A network of a chain kind without a client ends the execution of a bound
/// monitor with an `ExecutionError` that begins with the name of the chain
/// kind, whatever the block number and the monitor are. No client is
/// acquired and no block is fetched.
pub proof fn unsupported_chain_is_refused<C, B>(call: Call, answers: Answers<C, B>)
    requires
        is_bound(call),
        answers.network matches Some(network) && (network.network_type == BlockChainType::Midnight
            || network.network_type == BlockChainType::Solana),
    ensures
        outcome(call, answers) == Err::<Seq<char>, ErrorView>(
            execution_error(chain_not_supported_text(answers.network->0.network_type)),
        ),
        answers.network->0.network_type.label().is_prefix_of(
            chain_not_supported_text(answers.network->0.network_type),
        ),
        forall|count: nat|
            !(#[trigger] step_at(call, answers, count) is AcquireClient) && !(step_at(
                call,
                answers,
                count,
            ) is FetchBlock),
{
    let chain = answers.network->0.network_type;
    assert(step_at(call, answers, 1) == answered(step_at(call, answers, 0), answers));
    first_result_is_returned(call, answers, 1);
    assert forall|count: nat|
        !(#[trigger] step_at(call, answers, count) is AcquireClient) && !(step_at(
            call,
            answers,
            count,
        ) is FetchBlock) by {
        stages_are_ordered(call, answers, count);
        if count >= 1 {
            finished_is_final(call, answers, 1, count);
        }
    }
    assert(chain.label().is_prefix_of(chain_not_supported_text(chain))) by {
        let text = chain_not_supported_text(chain);
        assert(text.subrange(0, chain.label().len() as int) =~= chain.label());
    }
}

/// Where the pool gives no client, the execution ends with an
/// `ExecutionError` that names the chain kind and ends with the pool's
/// cause. No block is fetched.
pub proof fn failed_acquisition_is_reported<C, B>(call: Call, answers: Answers<C, B>)
    requires
        step_at(call, answers, 1) is AcquireClient,
        answers.client is Err,
    ensures
        outcome(call, answers) == Err::<Seq<char>, ErrorView>(
            execution_error(
                failure_text(client_stage(answers.network->0.network_type), answers.client->Err_0),
            ),
        ),
        answers.client->Err_0.is_suffix_of(
            failure_text(client_stage(answers.network->0.network_type), answers.client->Err_0),
        ),
        forall|count: nat| !(#[trigger] step_at(call, answers, count) is FetchBlock),
{
    collaborators_get_what_was_given(call, answers, 1);
    assert(step_at(call, answers, 2) == answered(step_at(call, answers, 1), answers));
    first_result_is_returned(call, answers, 2);
    assert forall|count: nat| !(#[trigger] step_at(call, answers, count) is FetchBlock) by {
        stages_are_ordered(call, answers, count);
    }
    let cause = answers.client->Err_0;
    let text = failure_text(client_stage(answers.network->0.network_type), cause);
    assert(text.subrange(text.len() - cause.len(), text.len() as int) =~= cause);
}

/// Where the client answers that the chain has no block of the requested
/// number, the execution ends with the `ExecutionError` that says so of that
/// number. The filtering engine is not asked.
pub proof fn missing_block_is_reported<C, B>(call: Call, answers: Answers<C, B>)
    requires
        step_at(call, answers, 2) is FetchBlock,
        answers.block == Ok::<Option<B>, Seq<char>>(None),
    ensures
        outcome(call, answers) == Err::<Seq<char>, ErrorView>(
            execution_error(block_not_found_text(call.block_number)),
        ),
        forall|count: nat| !(#[trigger] step_at(call, answers, count) is FilterBlock),
{
    collaborators_get_what_was_given(call, answers, 2);
    collaborators_get_what_was_given(call, answers, 1);
    collaborators_get_what_was_given(call, answers, 0);
    assert(step_at(call, answers, 3) == answered(step_at(call, answers, 2), answers));
    first_result_is_returned(call, answers, 3);
    assert forall|count: nat| !(#[trigger] step_at(call, answers, count) is FilterBlock) by {
        stages_are_ordered(call, answers, count);
    }
}

/// Where the client fails to fetch the block, the execution ends with an
/// `ExecutionError` that names the block and ends with the client's cause.
/// The filtering engine is not asked.
pub proof fn failed_fetch_is_reported<C, B>(call: Call, answers: Answers<C, B>)
    requires
        step_at(call, answers, 2) is FetchBlock,
        answers.block is Err,
    ensures
        outcome(call, answers) == Err::<Seq<char>, ErrorView>(
            execution_error(failure_text(block_stage(call.block_number), answers.block->Err_0)),
        ),
        answers.block->Err_0.is_suffix_of(
            failure_text(block_stage(call.block_number), answers.block->Err_0),
        ),
        forall|count: nat| !(#[trigger] step_at(call, answers, count) is FilterBlock),
{
    collaborators_get_what_was_given(call, answers, 2);
    collaborators_get_what_was_given(call, answers, 1);
    collaborators_get_what_was_given(call, answers, 0);
    assert(step_at(call, answers, 3) == answered(step_at(call, answers, 2), answers));
    first_result_is_returned(call, answers, 3);
    assert forall|count: nat| !(#[trigger] step_at(call, answers, count) is FilterBlock) by {
        stages_are_ordered(call, answers, count);
    }
    let cause = answers.block->Err_0;
    let text = failure_text(block_stage(call.block_number), cause);
    assert(text.subrange(text.len() - cause.len(), text.len() as int) =~= cause);
}

/// Where the filtering engine fails, the execution ends with an
/// `ExecutionError` whose message ends with the engine's cause.
pub proof fn failed_filtering_is_reported<C, B>(call: Call, answers: Answers<C, B>)
    requires
        step_at(call, answers, 3) is FilterBlock,
        answers.matches is Err,
    ensures
        outcome(call, answers) == Err::<Seq<char>, ErrorView>(
            execution_error(failure_text(filter_stage(), answers.matches->Err_0)),
        ),
        answers.matches->Err_0.is_suffix_of(failure_text(filter_stage(), answers.matches->Err_0)),
{
    assert(step_at(call, answers, 4) == answered(step_at(call, answers, 3), answers));
    let cause = answers.matches->Err_0;
    let text = failure_text(filter_stage(), cause);
    assert(text.subrange(text.len() - cause.len(), text.len() as int) =~= cause);
}

/// The chain kinds that have a client are treated alike: once the pool has
/// given a client, what the execution returns does not depend on which of
/// them the network is of, nor on anything else in its configuration.
pub proof fn supported_chains_are_treated_alike<C, B>(
    call: Call,
    answers: Answers<C, B>,
    other: NetworkView,
)
    requires
        answers.network matches Some(network) && network.network_type.is_supported(),
        other.network_type.is_supported(),
        answers.client is Ok,
    ensures
        outcome(
            call,
            Answers {
                network: Some(other),
                client: answers.client,
                block: answers.block,
                matches: answers.matches,
            },
        ) == outcome(call, answers),
{
    let others = Answers {
        network: Some(other),
        client: answers.client,
        block: answers.block,
        matches: answers.matches,
    };
    assert(step_at(call, answers, 1) == answered(step_at(call, answers, 0), answers));
    assert(step_at(call, answers, 2) == answered(step_at(call, answers, 1), answers));
    assert(step_at(call, answers, 3) == answered(step_at(call, answers, 2), answers));
    assert(step_at(call, answers, 4) == answered(step_at(call, answers, 3), answers));
    assert(step_at(call, others, 1) == answered(step_at(call, others, 0), others));
    assert(step_at(call, others, 2) == answered(step_at(call, others, 1), others));
    assert(step_at(call, others, 3) == answered(step_at(call, others, 2), others));
    assert(step_at(call, others, 4) == answered(step_at(call, others, 3), others));
}

/// Where the monitor is bound to the network, the network is registered
/// with a chain kind that has a client, and pool, client and engine answer,
/// the execution succeeds with the JSON text of exactly the matches that the
/// engine returned.
pub proof fn matches_are_returned<C, B>(call: Call, answers: Answers<C, B>)
    requires
        is_bound(call),
        answers.network matches Some(network) && network.network_type.is_supported(),
        answers.client is Ok,
        answers.block matches Ok(Some(_)),
        answers.matches is Ok,
    ensures
        outcome(call, answers) == Ok::<Seq<char>, ErrorView>(
            json_array_text(answers.matches->Ok_0),
        ),
        step_at(call, answers, 0) is LookupNetwork,
        step_at(call, answers, 1) is AcquireClient,
        step_at(call, answers, 2) is FetchBlock,
        step_at(call, answers, 3) is FilterBlock,
{
    assert(step_at(call, answers, 1) == answered(step_at(call, answers, 0), answers));
    assert(step_at(call, answers, 2) == answered(step_at(call, answers, 1), answers));
    assert(step_at(call, answers, 3) == answered(step_at(call, answers, 2), answers));
    assert(step_at(call, answers, 4) == answered(step_at(call, answers, 3), answers));
}

} // verus!
