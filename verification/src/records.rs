//! The read-only records the core displays: rooms, messages, friends
//! and private chats, as the file and remote collaborators hand them
//! over, and the rule for what a failed read yields.

use vstd::prelude::*;

verus! {

/// The signed-in user and the names of their friends.
#[derive(Clone, Debug)]
pub struct User {
    pub id: i64,
    pub username: String,
    pub friends: Vec<String>,
}

/// One line of a stored chat transcript.
#[derive(Clone, Debug)]
pub struct Chat {
    pub id: i64,
    pub username: String,
    pub text: String,
}

/// One chat room as the remote service lists it.
#[derive(Clone, Debug)]
pub struct Room {
    pub id: i64,
    pub title: String,
}

/// One message of a room's history as the remote service returns it.
#[derive(Clone, Debug)]
pub struct Message {
    pub id: i64,
    pub message_text: String,
    pub message_room_id: i64,
    pub message_user_name: String,
}

/// The envelope around a room listing: the echoed request id and the
/// rooms themselves.
#[derive(Clone, Debug)]
pub struct RoomResponse {
    pub id: i64,
    pub result: Vec<Room>,
}

/// Why a stored record could not be produced: the file could not be
/// read, or its contents could not be parsed.
#[derive(Clone, Copy, PartialEq, Eq, Structural, Debug)]
pub enum Error {
    ReadDBError,
    ParseDBError,
}

/// Why an exchange with the remote service failed: the transport gave
/// up (a timeout or a broken connection), the service answered with a
/// non-success status, or the payload could not be understood.
#[derive(Clone, Copy, PartialEq, Eq, Structural, Debug)]
pub enum RemoteError {
    Transport,
    BadStatus,
    MalformedPayload,
}

/// The recovery rule for every read operation, local or remote: a
/// collection that could not be fetched is shown as empty — never as
/// partial data, and never as a fatal condition.
pub fn or_empty<T, E>(fetched: Result<Vec<T>, E>) -> (r: Vec<T>)
    ensures
        match fetched {
            Ok(items) => r == items,
            Err(_) => r@ == Seq::<T>::empty(),
        },
{
    match fetched {
        Ok(items) => items,
        Err(_) => Vec::new(),
    }
}

/// The room id as the remote service numbers it: the service counts
/// rooms from one, while every cursor here counts from zero.
pub fn wire_room_id(room_index: usize) -> (id: i64)
    requires
        room_index + 1 <= i64::MAX,
    ensures
        id == room_index + 1,
{
    (room_index as i64) + 1
}

} // verus!
