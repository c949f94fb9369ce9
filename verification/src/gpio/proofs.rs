//! What the retry policy of the host controller guarantees.

use vstd::prelude::*;
use crate::gpio::command::{Command, Response};
use crate::gpio::error::{ERR_INVALID_PIN, TYPE_ERROR};
use crate::gpio::iic::write::IICWriteRequest;
use crate::gpio::read::ReadRequest;
use crate::gpio::toggle::ToggleRequest;
use crate::gpio::write::WriteRequest;
use crate::gpio::{
    attempts, attempts_from, conclude_spec, is_final_attempt, is_terminal, request_type,
    response_type, send_spec, Error, Exchange, Request, RESPONSE_FLAG,
};

verus! {

/// One rule marks every response: its type byte is that of the request with
/// the response flag added. No request has the type byte of a response.
pub proof fn lemma_response_type_is_flagged_request_type(operation: u8)
    ensures
        response_type(operation) == request_type(operation) + RESPONSE_FLAG,
        request_type(operation) < RESPONSE_FLAG,
        forall|other: u8| response_type(operation) != #[trigger] request_type(other),
{
}

/// The outcomes of the attempts of a send, given what the line does with each.
pub open spec fn outcomes_of<ResponseType, R: Request<ResponseType>>(
    request: &R,
    exchanges: spec_fn(nat) -> Exchange,
) -> spec_fn(nat) -> Result<ResponseType, Error> {
    |i: nat| conclude_spec(request, exchanges(i))
}

/// The body of the error response that reports `error_code`.
pub open spec fn error_body(error_code: u8) -> Seq<u8> {
    seq![response_type(TYPE_ERROR), error_code]
}

/// A send goes on exactly as long as its attempts end in errors that a retry
/// may mend and retries are left: the attempt that ends it is the first one
/// that is final, and a send makes no more than one attempt beyond its
/// retries.
pub proof fn theorem_send_stops_at_first_final_attempt<ResponseType>(
    max_retries: int,
    outcomes: spec_fn(nat) -> Result<ResponseType, Error>,
)
    ensures
        1 <= attempts(max_retries, outcomes),
        max_retries >= 0 ==> attempts(max_retries, outcomes) <= max_retries + 1,
        max_retries < 0 ==> attempts(max_retries, outcomes) == 1,
        is_final_attempt(
            max_retries,
            attempts(max_retries, outcomes) - 1,
            send_spec(max_retries, outcomes),
        ),
        forall|i: nat|
            i + 1 < attempts(max_retries, outcomes) ==> !is_final_attempt(
                max_retries,
                i as int,
                #[trigger] outcomes(i),
            ),
{
    lemma_attempts_from(max_retries, outcomes, 0);
}

proof fn lemma_attempts_from<ResponseType>(
    max_retries: int,
    outcomes: spec_fn(nat) -> Result<ResponseType, Error>,
    tries: nat,
)
    ensures
        tries + 1 <= attempts_from(max_retries, outcomes, tries),
        tries <= max_retries ==> attempts_from(max_retries, outcomes, tries) <= max_retries + 1,
        tries >= max_retries ==> attempts_from(max_retries, outcomes, tries) == tries + 1,
        is_final_attempt(
            max_retries,
            attempts_from(max_retries, outcomes, tries) - 1,
            outcomes((attempts_from(max_retries, outcomes, tries) - 1) as nat),
        ),
        forall|i: nat|
            tries <= i && i + 1 < attempts_from(max_retries, outcomes, tries)
                ==> !is_final_attempt(max_retries, i as int, #[trigger] outcomes(i)),
    decreases max_retries - tries,
{
    if !is_final_attempt(max_retries, tries as int, outcomes(tries)) {
        lemma_attempts_from(max_retries, outcomes, tries + 1);
    }
}

/// If none of the first `max_retries + 1` attempts ends in a response or in
/// the refusal of the pin, the send makes exactly those attempts and returns
/// the error of the last of them.
pub proof fn theorem_retries_exhausted<ResponseType>(
    max_retries: int,
    outcomes: spec_fn(nat) -> Result<ResponseType, Error>,
)
    requires
        max_retries >= 0,
        forall|i: nat| i <= max_retries ==> !is_terminal(#[trigger] outcomes(i)),
    ensures
        attempts(max_retries, outcomes) == max_retries + 1,
        send_spec(max_retries, outcomes) == outcomes(max_retries as nat),
{
    lemma_attempts_from_transient(max_retries, outcomes, 0);
}

proof fn lemma_attempts_from_transient<ResponseType>(
    max_retries: int,
    outcomes: spec_fn(nat) -> Result<ResponseType, Error>,
    tries: nat,
)
    requires
        tries <= max_retries,
        forall|i: nat| tries <= i <= max_retries ==> !is_terminal(#[trigger] outcomes(i)),
    ensures
        attempts_from(max_retries, outcomes, tries) == max_retries + 1,
    decreases max_retries - tries,
{
    if tries < max_retries {
        lemma_attempts_from_transient(max_retries, outcomes, tries + 1);
    }
}

/// On a line on which every read fails, a send makes exactly
/// `max_retries + 1` attempts and then returns the failure of the last read.
pub proof fn theorem_dead_line_exhausts_retries<ResponseType, R: Request<ResponseType>>(
    max_retries: int,
    request: &R,
    exchanges: spec_fn(nat) -> Exchange,
)
    requires
        max_retries >= 0,
        forall|i: nat| i <= max_retries ==> #[trigger] exchanges(i) is ReadFailed,
    ensures
        attempts(max_retries, outcomes_of(request, exchanges)) == max_retries + 1,
        send_spec(max_retries, outcomes_of(request, exchanges)) == Err::<ResponseType, Error>(
            Error::SDSPError { kind: exchanges(max_retries as nat)->kind },
        ),
{
    theorem_retries_exhausted(max_retries, outcomes_of(request, exchanges));
}

/// A send whose first attempt ends in the refusal of the pin makes no second
/// attempt, however many retries it has.
pub proof fn theorem_invalid_pin_is_final<ResponseType>(
    max_retries: int,
    outcomes: spec_fn(nat) -> Result<ResponseType, Error>,
)
    requires
        outcomes(0) == Err::<ResponseType, Error>(Error::InvalidPin),
    ensures
        attempts(max_retries, outcomes) == 1,
        send_spec(max_retries, outcomes) == Err::<ResponseType, Error>(Error::InvalidPin),
{
}

/// If the first packet that answers a request is the error response for an
/// invalid pin, the send makes exactly one attempt and returns that error.
/// This holds of every request that does not take that packet for its own
/// response.
pub proof fn theorem_invalid_pin_response_is_final<ResponseType, R: Request<ResponseType>>(
    max_retries: int,
    request: &R,
    exchanges: spec_fn(nat) -> Exchange,
)
    requires
        exchanges(0) matches Exchange::Answered { packet } && packet.body@ == error_body(
            ERR_INVALID_PIN,
        ),
        request.response_spec(error_body(ERR_INVALID_PIN)) is Err,
    ensures
        attempts(max_retries, outcomes_of(request, exchanges)) == 1,
        send_spec(max_retries, outcomes_of(request, exchanges)) == Err::<ResponseType, Error>(
            Error::InvalidPin,
        ),
{
}

/// None of the requests of this crate takes an error response for its own
/// response.
pub proof fn lemma_error_response_is_no_response(
    error_code: u8,
    read: ReadRequest,
    write: WriteRequest,
    toggle: ToggleRequest,
    iic_write: IICWriteRequest,
)
    ensures
        read.response_spec(error_body(error_code)) is Err,
        write.response_spec(error_body(error_code)) is Err,
        toggle.response_spec(error_body(error_code)) is Err,
        iic_write.response_spec(error_body(error_code)) is Err,
{
}

/// No command takes an error response for its own response.
pub proof fn lemma_error_response_answers_no_command(error_code: u8, command: Command)
    ensures
        command.response_spec(error_body(error_code)) is Err,
{
}

/// Whatever command is sent, if the first packet that answers it is the
/// error response for an invalid pin, the send makes exactly one attempt and
/// returns that error.
pub proof fn theorem_invalid_pin_stops_any_command(
    max_retries: int,
    command: Command,
    exchanges: spec_fn(nat) -> Exchange,
)
    requires
        exchanges(0) matches Exchange::Answered { packet } && packet.body@ == error_body(
            ERR_INVALID_PIN,
        ),
    ensures
        attempts(max_retries, outcomes_of(&command, exchanges)) == 1,
        send_spec(max_retries, outcomes_of(&command, exchanges)) == Err::<Response, Error>(
            Error::InvalidPin,
        ),
{
}

} // verus!
