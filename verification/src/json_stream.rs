//! The input side of a connection as one sequence: what was read, and what
//! could not be read, side by side.

use crate::connection::reversed;
use vstd::prelude::*;

verus! {

/// One answer of the input side.
#[derive(Debug, PartialEq)]
pub enum Connection<T, E> {
    InputError(E),
    InputCommand(T),
}

/// The failure of a merged input sequence. The merging itself never fails.
#[derive(Debug, PartialEq)]
pub struct ConnectionError(pub ());

/// An answer of the input side as an item: a failure becomes an item too.
pub open spec fn wrapped<T, E>(answer: Result<T, E>) -> Connection<T, E> {
    match answer {
        Ok(command) => Connection::InputCommand(command),
        Err(error) => Connection::InputError(error),
    }
}

/// Turns the answers of the input side into items, one for one and in their
/// order. A failure does not end the sequence: it is an item like the others.
pub fn create_merged_input_stream<T, E>(input_stream: Vec<Result<T, E>>) -> (r: Result<
    Vec<Connection<T, E>>,
    ConnectionError,
>)
    ensures
        r matches Ok(items) && items@ == input_stream@.map_values(
            |answer: Result<T, E>| wrapped(answer),
        ),
{
    let mut waiting = reversed(input_stream);
    let mut items: Vec<Connection<T, E>> = Vec::new();
    while waiting.len() > 0
        invariant
            waiting@.len() + items@.len() == input_stream@.len(),
            waiting@ == input_stream@.reverse().take(waiting@.len() as int),
            forall|i: int| 0 <= i < items@.len() ==> items@[i] == wrapped(input_stream@[i]),
        decreases waiting@.len(),
    {
        let answer = waiting.pop();
        match answer {
            Some(Ok(command)) => {
                items.push(Connection::InputCommand(command));
            },
            Some(Err(error)) => {
                items.push(Connection::InputError(error));
            },
            None => {},
        }
        assert(waiting@ =~= input_stream@.reverse().take(waiting@.len() as int));
    }
    assert(items@ =~= input_stream@.map_values(|answer: Result<T, E>| wrapped(answer)));
    Ok(items)
}

} // verus!
