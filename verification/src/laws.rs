//! What holds of the pipeline whatever the runtime answers. The laws on
//! discarded outputs stand in `discard_purity`, those on what comes after the
//! payload in `past_payload`, those on the cleanup of a multisig account in
//! `multisig_cleanup`, and those on squashing in `squash_laws`.

use crate::aptos_vm::{PayloadKind, Pipeline, Purpose, Stage};
use crate::output::discarded_output;
use crate::request::{Event, Request, RequestOf, RequestView};
use crate::transaction::{ModuleBundle, TransactionStatus, VMValidatorResult};
use crate::vm_status::{StatusCode, VMStatus};
use vstd::prelude::*;

verus! {

/// The gas that a fee statement says was used is what is gone from the
/// balance that the transaction started with, and never more than that
/// balance: both where the epilogue of a success and where the epilogue of a
/// failure is asked for.
pub proof fn law_gas_accounting(pipeline: Pipeline, event: Event)
    requires
        pipeline.spec_accepts(event),
    ensures
        match (event, pipeline.spec_step(event).1) {
            (
                Event::Gas { reading, .. },
                RequestOf::RunSuccessEpilogue { gas_remaining, fee_statement },
            ) => gas_remaining == reading.balance && fee_statement.total_charge_gas_units
                == pipeline.numbers.max_gas_amount - reading.balance
                && fee_statement.total_charge_gas_units <= pipeline.numbers.max_gas_amount,
            (
                Event::Gas { reading, .. },
                RequestOf::NewSession { .. },
            ) => pipeline.spec_step(event).0.stage matches Stage::OpeningEpilogueSession {
                gas_remaining,
                fee_statement,
                ..
            } && gas_remaining == reading.balance && fee_statement.total_charge_gas_units
                == pipeline.numbers.max_gas_amount - reading.balance
                && fee_statement.total_charge_gas_units <= pipeline.numbers.max_gas_amount
                && fee_statement.storage_fee_refund_octas == 0,
            _ => true,
        },
{
}

/// What the pipeline does depends on nothing but the transaction and the
/// events it has seen: two steps from the same state on the same event leave
/// the same state and name the same request, and so do whole executions by
/// induction.
pub proof fn law_determinism(
    pipeline: Pipeline,
    event: Event,
    first: (Pipeline, Request),
    second: (Pipeline, Request),
)
    requires
        first.0 == pipeline.spec_step(event).0,
        first.1@ == pipeline.spec_step(event).1,
        second.0 == pipeline.spec_step(event).0,
        second.1@ == pipeline.spec_step(event).1,
    ensures
        first.0 == second.0,
        first.1@ == second.1@,
{
}

/// A transaction that may use no gas at all is discarded in its prologue
/// as one with an invalid gas amount, unless its shape is refused before the
/// gas amount is looked at: a signer that signs twice, an authenticator that
/// is not enabled, or a module bundle where bundles are refused.
pub proof fn law_zero_gas_is_discarded(pipeline: Pipeline)
    requires
        pipeline.purpose == Purpose::Execution,
        pipeline.numbers.max_gas_amount == 0,
        !pipeline.spec_has_duplicate_signers(),
        pipeline.vm.vm_impl.features.single_sender_authenticator
            || !pipeline.numbers.is_single_sender,
        !(pipeline.numbers.payload_kind == PayloadKind::ModuleBundle
            && pipeline.vm.vm_impl.module_bundle_disallowed),
    ensures
        pipeline.spec_validate_signed_transaction() == pipeline.spec_finish_discarded(
            VMStatus::Error { status_code: StatusCode::INVALID_GAS_AMOUNT, sub_status: None },
        ),
        pipeline.spec_validate_signed_transaction().1 matches RequestOf::Finished { output, .. }
            && output.status == TransactionStatus::Discard(StatusCode::INVALID_GAS_AMOUNT),
{
}

/// What a failed prologue leads to. The validator accepts a transaction
/// whose sequence number is too new, ranked by its gas price, and rejects any
/// other with the code of the failure. The execution discards the
/// transaction with the code of the failure, whatever it is.
pub proof fn law_prologue_failure(pipeline: Pipeline, error: VMStatus)
    ensures
        pipeline.purpose == Purpose::Validation ==> pipeline.spec_prologue_failed(error).1 == (
        RequestView::Validated {
            result: if error.spec_status_code() == StatusCode::SEQUENCE_NUMBER_TOO_NEW {
                VMValidatorResult { status: None, score: pipeline.numbers.gas_unit_price }
            } else {
                VMValidatorResult { status: Some(error.spec_status_code()), score: 0 }
            },
        }),
        pipeline.purpose == Purpose::Execution ==> (
        pipeline.spec_prologue_failed(error).1 matches RequestOf::Finished { vm_status, output, .. }
            && vm_status == error && output == discarded_output(error) && output.status
            == TransactionStatus::Discard(error.spec_status_code())),
{
}

/// A bundle that does not decode under the limits that the features set,
/// the longest identifier among them, is not published. Where the payload
/// was the transaction's own and has loaded no module, the transaction is
/// discarded: nothing is written and nothing charged.
pub proof fn law_undecodable_bundle_is_rejected(pipeline: Pipeline, bundle: ModuleBundle)
    requires
        pipeline.publish is Some,
        !pipeline.in_multisig_payload,
        !pipeline.new_published_modules_loaded,
    ensures
        pipeline.spec_after_deserialize_published_bundle(bundle, None).1 matches RequestOf::Finished {
            output,
            ..
        } && output == discarded_output(
            VMStatus::Error {
                status_code: StatusCode::CODE_DESERIALIZATION_ERROR,
                sub_status: None,
            },
        ),
{
    let error = VMStatus::Error {
        status_code: StatusCode::CODE_DESERIALIZATION_ERROR,
        sub_status: None,
    };
    let cleared = Pipeline { publish: None, ..pipeline };
    assert(pipeline.spec_after_deserialize_published_bundle(bundle, None)
        == cleared.spec_payload_failed(error));
    assert(cleared.spec_payload_failed(error) == cleared.spec_keep_or_discard_failure(error));
    assert(TransactionStatus::spec_from_vm_status(
        error,
        cleared.vm.vm_impl.features.charge_invariant_violation,
    ) == TransactionStatus::Discard(StatusCode::CODE_DESERIALIZATION_ERROR));
}

} // verus!
