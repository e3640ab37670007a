//! Whole runs of an operation: the calls it makes and the result it comes
//! to, for every sequence of answers that the engine may give.

use vstd::prelude::*;
use crate::address::is_slatepack_address;
use crate::chain::ChainTypes;
use crate::error::GrinWalletInterfaceError;
use crate::slate::Slate;
use crate::wallet::engine::{EngineRequest, EngineResponse};
use crate::wallet::laws::{
    lemma_final_signature_is_submitted_once, lemma_operations_end,
    lemma_submissions_end_the_operation,
};
use crate::wallet::session::{Continuation, Output, Pending, Step, WalletInterface};
use crate::wallet::types::{
    ContractNewArgsAPI, ContractSetupArgsAPI, InitTxArgs, RetrieveTxQueryArgs,
};

verus! {

impl Pending {
    /// The operation is at a point from which a submission to the ledger
    /// can still come: a signature, a finalization, or the submission
    /// itself.
    pub open spec fn may_submit(self) -> bool {
        self is ContractSign || self is FinalizeTx || self is PostTx
    }
}

impl Step {
    /// A submission is asked for exactly where the pending operation waits
    /// for one. Every step that the coordinator hands out is of this kind.
    pub open spec fn is_coherent(self) -> bool {
        match self {
            Step::Done(_) => true,
            Step::Call(pending, request) => request is PostTx <==> pending is PostTx,
        }
    }

    /// The largest number of calls that the step can still lead to.
    pub open spec fn calls_ahead(self) -> nat {
        match self {
            Step::Done(_) => 0,
            Step::Call(pending, _) => 1 + pending.calls_left(),
        }
    }
}

/// The requests that an operation makes from `step` on, while the engine
/// gives `answers` in turn. The run stops when the operation is over or the
/// answers run out.
pub open spec fn spec_requests(
    session: WalletInterface,
    step: Step,
    answers: Seq<EngineResponse>,
) -> Seq<EngineRequest>
    decreases answers.len(),
{
    match step {
        Step::Done(_) => Seq::empty(),
        Step::Call(pending, request) => if answers.len() == 0 {
            seq![request]
        } else {
            seq![request] + spec_requests(
                session.spec_next_session(pending, answers[0]),
                session.spec_next_step(pending, answers[0]),
                answers.drop_first(),
            )
        },
    }
}

/// The result that the run comes to, or `None` where the answers run out
/// before the operation is over.
pub open spec fn spec_result(
    session: WalletInterface,
    step: Step,
    answers: Seq<EngineResponse>,
) -> Option<Result<Output, GrinWalletInterfaceError>>
    decreases answers.len(),
{
    match step {
        Step::Done(result) => Some(result),
        Step::Call(pending, _) => if answers.len() == 0 {
            None
        } else {
            spec_result(
                session.spec_next_session(pending, answers[0]),
                session.spec_next_step(pending, answers[0]),
                answers.drop_first(),
            )
        },
    }
}

/// The session at the end of the run.
pub open spec fn spec_final_session(
    session: WalletInterface,
    step: Step,
    answers: Seq<EngineResponse>,
) -> WalletInterface
    decreases answers.len(),
{
    match step {
        Step::Done(_) => session,
        Step::Call(pending, _) => if answers.len() == 0 {
            session
        } else {
            spec_final_session(
                session.spec_next_session(pending, answers[0]),
                session.spec_next_step(pending, answers[0]),
                answers.drop_first(),
            )
        },
    }
}

/// The number of submissions to the ledger among the requests.
pub open spec fn count_submissions(requests: Seq<EngineRequest>) -> nat
    decreases requests.len(),
{
    if requests.len() == 0 {
        0
    } else {
        (if requests[0] is PostTx {
            1nat
        } else {
            0nat
        }) + count_submissions(requests.drop_first())
    }
}

/// The number of requests that change the wallet or the ledger.
pub open spec fn count_mutations(requests: Seq<EngineRequest>) -> nat
    decreases requests.len(),
{
    if requests.len() == 0 {
        0
    } else {
        (if requests[0].spec_is_mutation() {
            1nat
        } else {
            0nat
        }) + count_mutations(requests.drop_first())
    }
}

/// The first step of every operation is coherent.
pub proof fn lemma_first_steps_are_coherent(
    session: WalletInterface,
    chain_type: ChainTypes,
    slate: Slate,
    setup_args: ContractSetupArgsAPI,
    contract_args: ContractNewArgsAPI,
    tx_args: InitTxArgs,
    query_args: Option<RetrieveTxQueryArgs>,
    text: String,
    next: Continuation,
    id: u32,
)
    ensures
        crate::wallet::session::spec_inst_wallet(chain_type, text, next).is_coherent(),
        crate::wallet::session::spec_encrypt(chain_type, text, slate, false).is_coherent(),
        session.spec_open(text).is_coherent(),
        session.spec_close_wallet().is_coherent(),
        session.spec_get_wallet_updater_status().is_coherent(),
        session.spec_decrypt_slatepack(text).is_coherent(),
        session.spec_get_wallet_info().is_coherent(),
        session.spec_get_txs(query_args).is_coherent(),
        session.spec_get_slatepack_address().is_coherent(),
        session.spec_create_contract(chain_type, contract_args, text).is_coherent(),
        session.spec_sign_contract(chain_type, slate, setup_args, text).is_coherent(),
        session.spec_create_tx(chain_type, tx_args, text).is_coherent(),
        session.spec_receive_tx_from_s1(chain_type, slate, text).is_coherent(),
        session.spec_finalize_from_s2(slate).is_coherent(),
        session.spec_cancel_tx(id).is_coherent(),
{
}

/// Every step that follows an answer is coherent.
pub proof fn lemma_next_steps_are_coherent(
    session: WalletInterface,
    pending: Pending,
    answer: EngineResponse,
)
    ensures
        session.spec_next_step(pending, answer).is_coherent(),
{
}

/// No run is longer than seven calls, whatever the engine answers.
pub proof fn lemma_runs_are_short(
    session: WalletInterface,
    step: Step,
    answers: Seq<EngineResponse>,
)
    ensures
        spec_requests(session, step, answers).len() <= step.calls_ahead(),
        step.calls_ahead() <= 7,
        answers.len() >= step.calls_ahead() ==> spec_result(session, step, answers) is Some,
    decreases answers.len(),
{
    match step {
        Step::Done(_) => {},
        Step::Call(pending, request) => {
            lemma_operations_end(session, pending, answers[0]);
            if answers.len() > 0 {
                lemma_runs_are_short(
                    session.spec_next_session(pending, answers[0]),
                    session.spec_next_step(pending, answers[0]),
                    answers.drop_first(),
                );
            }
        },
    }
}

/// No run submits to the ledger twice, whatever the engine answers.
pub proof fn lemma_no_run_submits_twice(
    session: WalletInterface,
    step: Step,
    answers: Seq<EngineResponse>,
)
    requires
        step.is_coherent(),
    ensures
        count_submissions(spec_requests(session, step, answers)) <= 1,
    decreases answers.len(),
{
    match step {
        Step::Done(_) => {},
        Step::Call(pending, request) => {
            if answers.len() == 0 {
                let made = spec_requests(session, step, answers);
                assert(made =~= seq![request]);
                assert(made.drop_first() =~= Seq::<EngineRequest>::empty());
                assert(count_submissions(made.drop_first()) == 0);
            } else {
                let after = session.spec_next_session(pending, answers[0]);
                let next = session.spec_next_step(pending, answers[0]);
                let rest = spec_requests(after, next, answers.drop_first());
                lemma_submissions_end_the_operation(session, pending, answers[0]);
                lemma_no_run_submits_twice(after, next, answers.drop_first());
                let made = spec_requests(session, step, answers);
                assert(made =~= seq![request] + rest);
                assert(made.drop_first() =~= rest);
                if request is PostTx {
                    assert(pending is PostTx);
                    assert(next is Done);
                    assert(rest =~= Seq::<EngineRequest>::empty());
                }
            }
        },
    }
}

/// Only signing a contract and finalizing a send lead to a submission: a
/// run from any other point submits nothing, whatever the engine answers.
pub proof fn lemma_only_signing_and_finalizing_submit(
    session: WalletInterface,
    step: Step,
    answers: Seq<EngineResponse>,
)
    requires
        step.is_coherent(),
        step matches Step::Call(pending, _) ==> !pending.may_submit(),
    ensures
        count_submissions(spec_requests(session, step, answers)) == 0,
    decreases answers.len(),
{
    match step {
        Step::Done(_) => {},
        Step::Call(pending, request) => {
            let made = spec_requests(session, step, answers);
            if answers.len() == 0 {
                assert(made =~= seq![request]);
                assert(made.drop_first() =~= Seq::<EngineRequest>::empty());
                assert(count_submissions(made.drop_first()) == 0);
            } else {
                let after = session.spec_next_session(pending, answers[0]);
                let next = session.spec_next_step(pending, answers[0]);
                let rest = spec_requests(after, next, answers.drop_first());
                lemma_submissions_end_the_operation(session, pending, answers[0]);
                lemma_only_signing_and_finalizing_submit(after, next, answers.drop_first());
                assert(made =~= seq![request] + rest);
                assert(made.drop_first() =~= rest);
            }
        },
    }
}

/// Creating a contract or a send submits nothing to the ledger, and neither
/// do the queries, whatever the engine answers.
pub proof fn lemma_creating_submits_nothing(
    session: WalletInterface,
    chain_type: ChainTypes,
    contract_args: ContractNewArgsAPI,
    tx_args: InitTxArgs,
    query_args: Option<RetrieveTxQueryArgs>,
    dest: String,
    answers: Seq<EngineResponse>,
)
    ensures
        count_submissions(
            spec_requests(
                session,
                session.spec_create_contract(chain_type, contract_args, dest),
                answers,
            ),
        ) == 0,
        count_submissions(
            spec_requests(session, session.spec_create_tx(chain_type, tx_args, dest), answers),
        ) == 0,
        count_submissions(spec_requests(session, session.spec_get_wallet_info(), answers)) == 0,
        count_submissions(spec_requests(session, session.spec_get_txs(query_args), answers))
            == 0,
        count_submissions(spec_requests(session, session.spec_decrypt_slatepack(dest), answers))
            == 0,
{
    lemma_only_signing_and_finalizing_submit(
        session,
        session.spec_create_contract(chain_type, contract_args, dest),
        answers,
    );
    lemma_only_signing_and_finalizing_submit(
        session,
        session.spec_create_tx(chain_type, tx_args, dest),
        answers,
    );
    lemma_only_signing_and_finalizing_submit(session, session.spec_get_wallet_info(), answers);
    lemma_only_signing_and_finalizing_submit(session, session.spec_get_txs(query_args), answers);
    lemma_only_signing_and_finalizing_submit(
        session,
        session.spec_decrypt_slatepack(dest),
        answers,
    );
}

/// A run that starts with a finished step makes no call at all: so do
/// `create_contract` and `create_tx` for a destination that is no slatepack
/// address of the chain. Nothing in the wallet or on the ledger changes,
/// and the session stays as it was.
pub proof fn lemma_refused_address_makes_no_call(
    session: WalletInterface,
    chain_type: ChainTypes,
    contract_args: ContractNewArgsAPI,
    tx_args: InitTxArgs,
    dest: String,
    answers: Seq<EngineResponse>,
)
    requires
        !is_slatepack_address(chain_type, dest@),
    ensures
        spec_requests(
            session,
            session.spec_create_contract(chain_type, contract_args, dest),
            answers,
        ) == Seq::<EngineRequest>::empty(),
        spec_requests(session, session.spec_create_tx(chain_type, tx_args, dest), answers)
            == Seq::<EngineRequest>::empty(),
        count_mutations(
            spec_requests(
                session,
                session.spec_create_contract(chain_type, contract_args, dest),
                answers,
            ),
        ) == 0,
        spec_result(
            session,
            session.spec_create_contract(chain_type, contract_args, dest),
            answers,
        ) == Some(
            Err::<Output, GrinWalletInterfaceError>(
                GrinWalletInterfaceError::InvalidSlatepackAddress,
            ),
        ),
        spec_result(session, session.spec_create_tx(chain_type, tx_args, dest), answers) == Some(
            Err::<Output, GrinWalletInterfaceError>(
                GrinWalletInterfaceError::InvalidSlatepackAddress,
            ),
        ),
        spec_final_session(
            session,
            session.spec_create_contract(chain_type, contract_args, dest),
            answers,
        ) == session,
        spec_final_session(session, session.spec_create_tx(chain_type, tx_args, dest), answers)
            == session,
{
}

/// With an owner facet, a run of `sign_contract` for a destination that is
/// no slatepack address of the chain makes no call at all and ends with
/// `InvalidSlatepackAddress`: nothing is signed and nothing is submitted.
pub proof fn lemma_refused_address_stops_signing(
    session: WalletInterface,
    chain_type: ChainTypes,
    slate: Slate,
    setup_args: ContractSetupArgsAPI,
    dest: String,
    answers: Seq<EngineResponse>,
)
    requires
        session.owner_api is Some,
        !is_slatepack_address(chain_type, dest@),
    ensures
        spec_requests(
            session,
            session.spec_sign_contract(chain_type, slate, setup_args, dest),
            answers,
        ) == Seq::<EngineRequest>::empty(),
        spec_result(
            session,
            session.spec_sign_contract(chain_type, slate, setup_args, dest),
            answers,
        ) == Some(
            Err::<Output, GrinWalletInterfaceError>(
                GrinWalletInterfaceError::InvalidSlatepackAddress,
            ),
        ),
        spec_final_session(
            session,
            session.spec_sign_contract(chain_type, slate, setup_args, dest),
            answers,
        ) == session,
{
}

/// Where the engine answers a signature with a slate that every participant
/// has signed, and then accepts the submission, the run of `sign_contract`
/// is the signature and one submission of the signed slate, with fluff; it
/// asks for no envelope and returns none.
pub proof fn lemma_completed_signature_is_one_submission(
    session: WalletInterface,
    chain_type: ChainTypes,
    slate: Slate,
    setup_args: ContractSetupArgsAPI,
    dest: String,
    signed: Slate,
    answers: Seq<EngineResponse>,
)
    requires
        session.spec_sign_contract(chain_type, slate, setup_args, dest) is Call,
        answers.len() >= 2,
        answers[0] == (EngineResponse::Signed { slate: signed, can_finalize: true }),
        answers[1] == EngineResponse::Unit,
    ensures
        ({
            let first = session.spec_sign_contract(chain_type, slate, setup_args, dest);
            let made = spec_requests(session, first, answers);
            &&& made.len() == 2
            &&& made[0] is ContractSign
            &&& made[1] == (EngineRequest::PostTx { slate: signed, fluff: true })
            &&& count_submissions(made) == 1
            &&& spec_result(session, first, answers) == Some(
                Ok::<Output, GrinWalletInterfaceError>(Output::MaybeEnvelope(None)),
            )
        }),
{
    let first = session.spec_sign_contract(chain_type, slate, setup_args, dest);
    lemma_signing_submits_once_or_hands_on(session, chain_type, slate, setup_args, dest, answers);
    match first {
        Step::Done(_) => {},
        Step::Call(pending, request) => {
            let after = session.spec_next_session(pending, answers[0]);
            let second = session.spec_next_step(pending, answers[0]);
            let tail = answers.drop_first();
            assert(tail[0] == answers[1]);
            assert(second == Step::Call(
                Pending::PostTx,
                EngineRequest::PostTx { slate: signed, fluff: true },
            ));
            let last = after.spec_next_step(Pending::PostTx, tail[0]);
            let end = after.spec_next_session(Pending::PostTx, tail[0]);
            assert(last == Step::Done(
                Ok::<Output, GrinWalletInterfaceError>(Output::MaybeEnvelope(None)),
            ));
            assert(spec_result(end, last, tail.drop_first()) == Some(last->Done_0));
            assert(spec_result(after, second, tail) == Some(last->Done_0));
            let asked = EngineRequest::PostTx { slate: signed, fluff: true };
            let rest = spec_requests(end, last, tail.drop_first());
            assert(rest =~= Seq::<EngineRequest>::empty());
            let middle = spec_requests(after, second, tail);
            assert(middle =~= seq![asked]);
            let made = spec_requests(session, first, answers);
            assert(made =~= seq![request, asked]);
            assert(made.drop_first() =~= seq![asked]);
            assert(made.drop_first().drop_first() =~= Seq::<EngineRequest>::empty());
            assert(count_submissions(made.drop_first().drop_first()) == 0);
            assert(count_submissions(made.drop_first()) == 1);
            assert(!(request is PostTx));
        },
    }
}

/// A run of `sign_contract` that returns no envelope has submitted the
/// signed slate to the ledger exactly once; one that returns an envelope
/// has submitted nothing.
pub proof fn lemma_signing_submits_once_or_hands_on(
    session: WalletInterface,
    chain_type: ChainTypes,
    slate: Slate,
    setup_args: ContractSetupArgsAPI,
    dest: String,
    answers: Seq<EngineResponse>,
)
    ensures
        ({
            let first = session.spec_sign_contract(chain_type, slate, setup_args, dest);
            let made = spec_requests(session, first, answers);
            let result = spec_result(session, first, answers);
            &&& result == Some(Ok::<Output, GrinWalletInterfaceError>(Output::MaybeEnvelope(None)))
                ==> count_submissions(made) == 1 && made.len() == 2 && made[1] is PostTx
            &&& result matches Some(Ok(Output::MaybeEnvelope(Some(_)))) ==> count_submissions(made)
                == 0 && made.len() == 2 && made[1] is CreateSlatepackMessage
            &&& result matches Some(Ok(output)) ==> output is MaybeEnvelope
            &&& count_submissions(made) <= 1
        }),
{
    let first = session.spec_sign_contract(chain_type, slate, setup_args, dest);
    assert(first.is_coherent());
    lemma_no_run_submits_twice(session, first, answers);
    let made = spec_requests(session, first, answers);
    let result = spec_result(session, first, answers);
    match first {
        Step::Done(ended) => {
            assert(ended is Err);
            assert(result == Some(ended));
        },
        Step::Call(pending, request) => {
            if answers.len() == 0 {
                assert(result is None);
            } else {
                let after = session.spec_next_session(pending, answers[0]);
                let second = session.spec_next_step(pending, answers[0]);
                let tail = answers.drop_first();
                assert(result == spec_result(after, second, tail));
                match second {
                    Step::Done(ended) => {
                        lemma_final_signature_is_submitted_once(
                            session,
                            chain_type,
                            slate,
                            setup_args,
                            dest,
                            answers[0],
                            answers[0],
                        );
                        assert(ended is Err);
                        assert(result == Some(ended));
                    },
                    Step::Call(waiting, asked) => {
                        if tail.len() == 0 {
                            assert(result is None);
                        } else {
                            lemma_final_signature_is_submitted_once(
                                session,
                                chain_type,
                                slate,
                                setup_args,
                                dest,
                                answers[0],
                                tail[0],
                            );
                            let last = after.spec_next_step(waiting, tail[0]);
                            let end = after.spec_next_session(waiting, tail[0]);
                            assert(last is Done);
                            let rest = spec_requests(end, last, tail.drop_first());
                            assert(rest =~= Seq::<EngineRequest>::empty());
                            let middle = spec_requests(after, second, tail);
                            assert(middle =~= seq![asked]);
                            assert(made =~= seq![request, asked]);
                            assert(made.drop_first() =~= seq![asked]);
                            assert(made.drop_first().drop_first() =~= Seq::<
                                EngineRequest,
                            >::empty());
                            assert(count_submissions(made.drop_first().drop_first()) == 0);
                            assert(count_submissions(made.drop_first()) == if asked is PostTx {
                                1nat
                            } else {
                                0nat
                            });
                            assert(!(request is PostTx));
                            assert(spec_result(end, last, tail.drop_first()) == Some(last->Done_0));
                            assert(result == Some(last->Done_0));
                        }
                    },
                }
            }
        },
    }
}

} // verus!
