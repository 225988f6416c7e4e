//! What a request for candle-fetch tasks does to the registry. The
//! transport that carries requests and answers is the caller's.

use vstd::prelude::*;
use vstd::string::StringExecFns;
use crate::errors::{AppError, AppResult};
use crate::models::Timeframe;
use crate::registry::{has_id, TaskRegistry};
use crate::tasks::{FetchCandlesParams, FetchCandlesResult, FetchCandlesTask, Task};

verus! {

/// A request that names an exchange.
#[derive(Debug)]
pub struct ExchangeQuery {
    pub exchange: String,
}

/// A request for a new candle-fetch task.
#[derive(Debug)]
pub struct CreateFetchCandlesTaskRequest {
    pub symbol: String,
    pub exchange: String,
    pub timeframe: Timeframe,
}

/// The answer to a request for a new task.
#[derive(Debug)]
pub struct CreateFetchCandlesTaskResponse {
    pub task_id: u128,
}

/// The parameters of the task that a request asks for.
pub open spec fn params_of(request: CreateFetchCandlesTaskRequest) -> FetchCandlesParams {
    FetchCandlesParams {
        symbol: request.symbol,
        exchange: request.exchange,
        timeframe: request.timeframe,
    }
}

/// The hexadecimal digit for a number below sixteen, in lower case.
pub open spec fn hex_char(d: int) -> char {
    if d == 0 {
        '0'
    } else if d == 1 {
        '1'
    } else if d == 2 {
        '2'
    } else if d == 3 {
        '3'
    } else if d == 4 {
        '4'
    } else if d == 5 {
        '5'
    } else if d == 6 {
        '6'
    } else if d == 7 {
        '7'
    } else if d == 8 {
        '8'
    } else if d == 9 {
        '9'
    } else if d == 10 {
        'a'
    } else if d == 11 {
        'b'
    } else if d == 12 {
        'c'
    } else if d == 13 {
        'd'
    } else if d == 14 {
        'e'
    } else {
        'f'
    }
}

/// Sixteen to the power of `n`.
pub open spec fn pow16(n: nat) -> int
    decreases n,
{
    if n == 0 {
        1
    } else {
        16 * pow16((n - 1) as nat)
    }
}

/// The character at place `i` of the text of a task id: a hyphen after the
/// eighth, twelfth, sixteenth and twentieth digit, else the next of the 32
/// hexadecimal digits of the id, the highest first.
pub open spec fn uuid_char(id: u128, i: int) -> char {
    if i == 8 || i == 13 || i == 18 || i == 23 {
        '-'
    } else {
        let hyphens: int = if i > 23 {
            4
        } else if i > 18 {
            3
        } else if i > 13 {
            2
        } else if i > 8 {
            1
        } else {
            0
        };
        hex_char((id as int / pow16((31 - (i - hyphens)) as nat)) % 16)
    }
}

/// The text of a task id: its 32 hexadecimal digits in five groups of 8, 4,
/// 4, 4 and 12, with hyphens between them.
pub open spec fn uuid_text(id: u128) -> Seq<char> {
    Seq::new(36, |i: int| uuid_char(id, i))
}

/// Calls `uuid::Uuid::from_u128` and `Uuid::to_string`, which writes the id
/// in lower-case hexadecimal digits, the highest first, in five groups with
/// hyphens between them.
#[verifier::external_body]
pub(crate) fn id_to_text(id: u128) -> (r: String)
    ensures
        r@ == uuid_text(id),
{
    uuid::Uuid::from_u128(id).to_string()
}

/// The message for an id under which no task of the given kind is known.
pub open spec fn unknown_task_message(id: u128, kind: Seq<char>) -> Seq<char> {
    "Task with id \""@ + uuid_text(id) + "\" is not a "@ + kind + " task"@
}

/// The task of the given kind with the given id; an id that is not known
/// is reported with its text and the kind.
pub fn task_by_id<'a, P, R>(registry: &'a TaskRegistry<P, R>, id: u128, kind: &str) -> (r: AppResult<
    &'a Task<P, R>,
>)
    requires
        registry.wf(),
    ensures
        match r {
            Ok(t) => exists|i: int|
                0 <= i < registry.tasks@.len() && registry.tasks@[i].id == id && *t
                    == registry.tasks@[i],
            Err(e) => !has_id(registry.tasks@, id) && e is NotFound && e.message_spec()
                == unknown_task_message(id, kind@),
        },
{
    match registry.get(id) {
        Some(t) => Ok(t),
        None => {
            let mut message = String::from_str("Task with id \"");
            let text = id_to_text(id);
            message.append(text.as_str());
            message.append("\" is not a ");
            message.append(kind);
            message.append(" task");
            Err(AppError::NotFound(message))
        },
    }
}

/// The answer of the health check.
pub fn check() -> (r: &'static str)
    ensures
        r@ == "OK"@,
{
    "OK"
}

/// Enters a new task for the request under the id that the caller drew,
/// in `Pending`, and answers with the id. The caller then schedules it.
pub fn create_task(
    registry: &mut TaskRegistry<FetchCandlesParams, FetchCandlesResult>,
    request: &CreateFetchCandlesTaskRequest,
    id: u128,
    now: i64,
) -> (r: AppResult<CreateFetchCandlesTaskResponse>)
    requires
        old(registry).wf(),
    ensures
        final(registry).wf(),
        match r {
            Ok(answer) => answer.task_id == id && !has_id(old(registry).tasks@, id)
                && final(registry).tasks@ == old(registry).tasks@.push(
                Task::<FetchCandlesParams, FetchCandlesResult>::pending(
                    id,
                    params_of(*request),
                    now,
                ),
            ),
            Err(e) => has_id(old(registry).tasks@, id) && e is Internal && e.message_spec()
                == "Task id is already in use"@ && final(registry).tasks@ == old(registry).tasks@,
        },
{
    let params = FetchCandlesParams {
        symbol: request.symbol.clone(),
        exchange: request.exchange.clone(),
        timeframe: request.timeframe,
    };
    match registry.create(id, params, now) {
        Ok(task_id) => Ok(CreateFetchCandlesTaskResponse { task_id }),
        Err(e) => Err(e),
    }
}

/// Every task of a registry, in registry order.
pub fn get_all_tasks<P, R>(registry: &TaskRegistry<P, R>) -> (r: &Vec<Task<P, R>>)
    ensures
        r@ == registry.tasks@,
{
    registry.list()
}

/// The candle-fetch task with the given id.
pub fn get_task(registry: &TaskRegistry<FetchCandlesParams, FetchCandlesResult>, id: u128) -> (r:
    AppResult<&FetchCandlesTask>)
    requires
        registry.wf(),
    ensures
        match r {
            Ok(t) => exists|i: int|
                0 <= i < registry.tasks@.len() && registry.tasks@[i].id == id && *t
                    == registry.tasks@[i],
            Err(e) => !has_id(registry.tasks@, id) && e is NotFound && e.message_spec()
                == unknown_task_message(id, "FetchCandles"@),
        },
{
    task_by_id(registry, id, "FetchCandles")
}

/// What a subscriber to the task stream receives first: a snapshot of
/// every task known at that moment, in registry order. The live events
/// follow.
pub fn stream_tasks<P, R>(registry: &TaskRegistry<P, R>) -> (r: &Vec<Task<P, R>>)
    ensures
        r@ == registry.tasks@,
{
    registry.list()
}

} // verus!
