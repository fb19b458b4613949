//! What holds of an operation over a whole run of replies.

use vstd::prelude::*;
use crate::configuration::DistroConfigurationView;
use crate::error::ErrorView;
use crate::flags::{flags_of_bits, DistroFlags};
use crate::narrow_chars::decode_narrow;
use crate::native::{NativeReplyView, NativeRequestView};
use crate::operation::{OperationView, OutcomeView, QueryView};

verus! {

/// The state of `op` after it has taken the replies one after the other.
pub open spec fn run(op: OperationView, replies: Seq<NativeReplyView>) -> OperationView
    decreases replies.len(),
{
    if replies.len() == 0 {
        op
    } else {
        run(op, replies.drop_last()).step(replies.last())
    }
}

/// `k` replies that each report a release.
pub open spec fn freed(k: nat) -> Seq<NativeReplyView> {
    Seq::new(k, |i: int| NativeReplyView::Freed)
}

/// The replies that hand over the elements of an array, in its order.
pub open spec fn read(elements: Seq<Option<Seq<u8>>>) -> Seq<NativeReplyView> {
    elements.map_values(|bytes: Option<Seq<u8>>| NativeReplyView::Variable(bytes))
}

/// The texts of elements that can all be decoded.
pub open spec fn decoded(elements: Seq<Option<Seq<u8>>>) -> Seq<Seq<char>> {
    elements.map_values(|bytes: Option<Seq<u8>>| decode_narrow(bytes)->Ok_0)
}

/// Whether every element can be decoded.
pub open spec fn all_decodable(elements: Seq<Option<Seq<u8>>>) -> bool {
    forall|i: int| 0 <= i < elements.len() ==> (#[trigger] decode_narrow(elements[i])) is Ok
}

/// What a query knows when the native side has reported success and
/// nothing has been read yet.
pub open spec fn reported(
    name: Seq<char>,
    version: u32,
    default_uid: u32,
    wsl_flags: u32,
    count: u32,
) -> QueryView {
    QueryView {
        name,
        version,
        default_uid,
        wsl_flags,
        count,
        variables: Seq::empty(),
        failure: None,
    }
}

/// Taking two runs of replies in turn is taking them as one.
pub proof fn lemma_run_concat(
    op: OperationView,
    first: Seq<NativeReplyView>,
    second: Seq<NativeReplyView>,
)
    ensures
        run(op, first + second) == run(run(op, first), second),
    decreases second.len(),
{
    if second.len() == 0 {
        assert(first + second =~= first);
    } else {
        assert((first + second).drop_last() =~= first + second.drop_last());
        lemma_run_concat(op, first, second.drop_last());
    }
}

/// Every state that an operation reaches from a well-formed one is
/// well-formed.
pub proof fn lemma_step_wf(op: OperationView, reply: NativeReplyView)
    requires
        op.wf(),
    ensures
        op.step(reply).wf(),
{
}

/// A status other than zero ends the operation, whichever it is, with that
/// status as its error.
pub proof fn lemma_failure_status(op: OperationView, reply: NativeReplyView, code: i32)
    requires
        op.accepts(reply),
        reply.status() == Some(code),
        code != 0,
    ensures
        op.step(reply) == (OperationView::Finished {
            result: Err(ErrorView::NativeStatusError { code }),
        }),
{
}

/// The status zero is success for every operation: a call that returns
/// nothing else has succeeded, a launch gives the exit code, and a query
/// goes on to read what the native side returned.
pub proof fn lemma_success_status(op: OperationView, reply: NativeReplyView)
    requires
        op.wf(),
        op.accepts(reply),
        reply.status() == Some(0i32),
    ensures
        match reply {
            NativeReplyView::Status(_) => op.step(reply) == (OperationView::Finished {
                result: Ok(OutcomeView::Done),
            }),
            NativeReplyView::Launched { exit_code, .. } => op.step(reply) == (
            OperationView::Finished { result: Ok(OutcomeView::ExitCode(exit_code)) }),
            _ => op.step(reply) is Reading || op.step(reply) is Releasing,
        },
{
}

/// What an operation returns when it succeeds goes by the request that was
/// answered last: nothing more than success for a registration, a removal
/// or a reconfiguration, the exit code for a launch, the answer for a check
/// of a registration, and the record for a query, which ends with the
/// release of the array.
pub proof fn lemma_outcome_kind(op: OperationView, reply: NativeReplyView, outcome: OutcomeView)
    requires
        op.wf(),
        op.pending() is Some,
        op.step(reply) == (OperationView::Finished { result: Ok(outcome) }),
    ensures
        match op.pending()->0 {
            NativeRequestView::RegisterDistribution { .. } => outcome is Done,
            NativeRequestView::UnregisterDistribution { .. } => outcome is Done,
            NativeRequestView::ConfigureDistribution { .. } => outcome is Done,
            NativeRequestView::LaunchInteractive { .. } => outcome is ExitCode,
            NativeRequestView::IsDistributionRegistered { .. } => outcome is Registered,
            NativeRequestView::FreeVariables => outcome is Configuration,
            _ => false,
        },
{
}

/// An operation reports a native status as its error only when the native
/// side returned that status, and it was not zero.
pub proof fn lemma_status_error_is_native(op: OperationView, reply: NativeReplyView, code: i32)
    requires
        op.wf(),
        !(op is Finished),
        op.step(reply) == (OperationView::Finished {
            result: Err(ErrorView::NativeStatusError { code }),
        }),
    ensures
        reply.status() == Some(code),
        code != 0,
{
}

/// While a query reads, nothing is released: the reply to a read leads to
/// the next read, or to the release of the first element (of the array
/// itself where it has no elements).
pub proof fn lemma_reading_releases_nothing(op: OperationView, reply: NativeReplyView)
    requires
        op.wf(),
        op is Reading,
    ensures
        match op.step(reply) {
            OperationView::Reading { query } => query.count == op->Reading_query.count,
            OperationView::Releasing { query, released } => released == 0 && query.count
                == op->Reading_query.count,
            _ => false,
        },
{
}

/// Once the release has begun, nothing is read any more: the reply to a
/// release leads to the next release or to the end.
pub proof fn lemma_releasing_reads_nothing(op: OperationView, reply: NativeReplyView)
    requires
        op.wf(),
        op is Releasing,
    ensures
        match op.step(reply) {
            OperationView::Releasing { query, released } => query == op->Releasing_query
                && released >= op->released,
            OperationView::Finished { .. } => true,
            _ => false,
        },
{
}

/// Once the release has begun, `k` releases that succeed leave the query
/// waiting for the release of element `k`; after as many as the array has
/// elements, for the release of the array; and after that one the query
/// ends. So every element is released once, in the order of the array,
/// then the array, and nothing after it.
pub proof fn lemma_release_sequence(query: QueryView, k: nat)
    requires
        query.variables.len() <= query.count,
        k <= query.count + 1,
    ensures
        k <= query.count ==> run(OperationView::Releasing { query, released: 0 }, freed(k)) == (
        OperationView::Releasing { query, released: k as u32 }),
        k < query.count ==> run(
            OperationView::Releasing { query, released: 0 },
            freed(k),
        ).pending() == Some(NativeRequestView::FreeVariable { index: k as u32 }),
        k == query.count ==> run(
            OperationView::Releasing { query, released: 0 },
            freed(k),
        ).pending() == Some(NativeRequestView::FreeVariables),
        k == query.count + 1 ==> run(OperationView::Releasing { query, released: 0 }, freed(k))
            == (OperationView::Finished { result: query.assemble() }),
    decreases k,
{
    let start = OperationView::Releasing { query, released: 0 };
    if k > 0 {
        lemma_release_sequence(query, (k - 1) as nat);
        assert(freed(k).drop_last() =~= freed((k - 1) as nat));
        assert(freed(k).last() == NativeReplyView::Freed);
        let before = run(start, freed((k - 1) as nat));
        assert(before == (OperationView::Releasing { query, released: (k - 1) as u32 }));
        assert(before.accepts(NativeReplyView::Freed));
    } else {
        assert(freed(0) =~= Seq::empty());
    }
}

/// A query whose elements can all be decoded reads them in the order of the
/// array, each once: after `k` of them it holds their texts, and waits for
/// the next where one is left, for the first release where none is.
pub proof fn lemma_read_sequence(query: QueryView, elements: Seq<Option<Seq<u8>>>)
    requires
        query.variables.len() == 0,
        query.failure is None,
        elements.len() <= query.count,
        all_decodable(elements),
    ensures
        run(query.proceed(), read(elements)) == (QueryView {
            variables: decoded(elements),
            ..query
        }).proceed(),
    decreases elements.len(),
{
    if elements.len() == 0 {
        assert(read(elements) =~= Seq::empty());
        assert(decoded(elements) =~= query.variables);
    } else {
        let shorter = elements.drop_last();
        assert forall|i: int| 0 <= i < shorter.len() implies (#[trigger] decode_narrow(
            shorter[i],
        )) is Ok by {
            assert(shorter[i] == elements[i]);
        }
        lemma_read_sequence(query, shorter);
        assert(read(elements).drop_last() =~= read(shorter));
        assert(read(elements).last() == NativeReplyView::Variable(elements.last()));
        let before = QueryView { variables: decoded(shorter), ..query };
        assert(run(query.proceed(), read(shorter)) == (OperationView::Reading { query: before }));
        assert(decode_narrow(elements[elements.len() - 1]) is Ok);
        assert(decoded(shorter).push(decode_narrow(elements.last())->Ok_0) =~= decoded(
            elements,
        ));
    }
}

/// A query that succeeds from end to end. The native side reports the
/// status zero, `elements.len()` elements and flags without an unknown bit;
/// every element can be decoded; every release succeeds. Then the
/// operation ends with the record that holds the name asked for, what was
/// reported, and the texts of the elements in the order of the array; and
/// it has taken one reply for the query, one for each element read, one for
/// each element released and one for the array, no more.
pub proof fn lemma_query_succeeds(
    name: Seq<char>,
    version: u32,
    default_uid: u32,
    wsl_flags: u32,
    elements: Seq<Option<Seq<u8>>>,
)
    requires
        elements.len() <= u32::MAX,
        all_decodable(elements),
        wsl_flags < 8,
    ensures
        run(
            OperationView::Querying { name },
            seq![
                NativeReplyView::Configuration {
                    status: 0,
                    version,
                    default_uid,
                    wsl_flags,
                    count: elements.len() as u32,
                },
            ] + read(elements) + freed(elements.len() + 1),
        ) == (OperationView::Finished {
            result: Ok(
                OutcomeView::Configuration(
                    DistroConfigurationView {
                        name,
                        version,
                        default_uid,
                        flags: flags_of_bits(wsl_flags)->0,
                        default_environment_variables: decoded(elements),
                    },
                ),
            ),
        }),
{
    let count = elements.len() as u32;
    let report = NativeReplyView::Configuration {
        status: 0,
        version,
        default_uid,
        wsl_flags,
        count,
    };
    let start = OperationView::Querying { name };
    let query = reported(name, version, default_uid, wsl_flags, count);
    let full = QueryView { variables: decoded(elements), ..query };
    assert(seq![report].drop_last() =~= Seq::empty());
    assert(run(start, Seq::empty()) == start);
    assert(start.accepts(report));
    assert(start.step(report) == query.proceed());
    assert(run(start, seq![report]) == query.proceed());
    lemma_read_sequence(query, elements);
    lemma_release_sequence(full, elements.len() + 1);
    lemma_run_concat(start, seq![report], read(elements));
    lemma_run_concat(start, seq![report] + read(elements), freed(elements.len() + 1));
}

/// Flags that were sent with a reconfiguration come back from a query:
/// where the native side reports the word that it was sent, the record
/// holds the very flags that the configuration held.
pub proof fn lemma_configured_flags_come_back(
    name: Seq<char>,
    version: u32,
    default_uid: u32,
    flags: DistroFlags,
    elements: Seq<Option<Seq<u8>>>,
)
    requires
        elements.len() <= u32::MAX,
        all_decodable(elements),
    ensures
        run(
            OperationView::Querying { name },
            seq![
                NativeReplyView::Configuration {
                    status: 0,
                    version,
                    default_uid,
                    wsl_flags: flags.mask(),
                    count: elements.len() as u32,
                },
            ] + read(elements) + freed(elements.len() + 1),
        ) == (OperationView::Finished {
            result: Ok(
                OutcomeView::Configuration(
                    DistroConfigurationView {
                        name,
                        version,
                        default_uid,
                        flags,
                        default_environment_variables: decoded(elements),
                    },
                ),
            ),
        }),
{
    lemma_query_succeeds(name, version, default_uid, flags.mask(), elements);
}

} // verus!
