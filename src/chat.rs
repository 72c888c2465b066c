use vstd::prelude::*;

verus! {

/// Whether the chat protocol accepts `s` as a user identifier.
pub uninterp spec fn is_user_handle(s: Seq<char>) -> bool;

/// Whether the chat protocol accepts `s` as a room identifier.
pub uninterp spec fn is_room_id(s: Seq<char>) -> bool;

/// The text after the first `:` of `s`; empty where there is none.
pub open spec fn after_first_colon(s: Seq<char>) -> Seq<char>
    decreases s.len(),
{
    if s.len() == 0 {
        Seq::empty()
    } else if s[0] == ':' {
        s.skip(1)
    } else {
        after_first_colon(s.skip(1))
    }
}

/// Relies on matrix_sdk's `OwnedUserId::try_from`, which accepts only text
/// that starts with `@` and holds a `:`, and on `UserId::server_name`, the
/// text after the first `:`.
#[verifier::external_body]
fn parse_user_handle(handle: &str) -> (r: Option<String>)
    ensures
        r is Some <==> is_user_handle(handle@),
        r matches Some(server) ==> handle@.len() > 0 && handle@[0] == '@' && server@
            == after_first_colon(handle@),
{
    matrix_sdk::ruma::OwnedUserId::try_from(handle).ok().map(|u| u.server_name().as_str().to_string())
}

/// Relies on matrix_sdk's `OwnedRoomId::try_from`, which accepts only text
/// that starts with `!` and keeps it as it is.
#[verifier::external_body]
fn parse_room_id(room_id: &str) -> (r: Option<String>)
    ensures
        r is Some <==> is_room_id(room_id@),
        r matches Some(id) ==> room_id@.len() > 0 && room_id@[0] == '!' && id@ == room_id@,
{
    matrix_sdk::ruma::OwnedRoomId::try_from(room_id).ok().map(|id| id.as_str().to_string())
}

/// A chat identifier from the configuration that the protocol rejects.
#[derive(PartialEq, Eq, Structural, Debug, Clone, Copy)]
pub enum ChatError {
    InvalidHandle,
    InvalidRoomId,
}

/// How to reach the target room.
#[derive(Debug, Clone)]
pub enum RoomStep {
    /// The session is already a member: use the joined room at this index.
    UseJoined(usize),
    /// Join the room with this identifier.
    Join(String),
}

/// Whether `step` reaches room `id` from the joined rooms `joined`: the first
/// joined room with that identifier, or a join where there is none.
pub open spec fn reaches_room(joined: Seq<String>, id: Seq<char>, step: RoomStep) -> bool {
    match step {
        RoomStep::UseJoined(i) => {
            &&& i < joined.len()
            &&& joined[i as int]@ == id
            &&& forall|j: int| 0 <= j < i ==> joined[j]@ != id
        },
        RoomStep::Join(target) => {
            &&& target@ == id
            &&& forall|j: int| 0 <= j < joined.len() ==> joined[j]@ != id
        },
    }
}

/// The position of the first joined room whose identifier is `target`, if
/// the session is already a member; otherwise the room has to be joined.
pub fn joined_room_index(joined: &Vec<String>, target: &String) -> (r: Option<usize>)
    ensures
        r matches Some(i) ==> {
            &&& i < joined@.len()
            &&& joined@[i as int]@ == target@
            &&& forall|j: int| 0 <= j < i ==> joined@[j]@ != target@
        },
        r is None ==> forall|j: int| 0 <= j < joined@.len() ==> joined@[j]@ != target@,
{
    let mut i: usize = 0;
    while i < joined.len()
        invariant
            i <= joined@.len(),
            forall|j: int| 0 <= j < i ==> joined@[j]@ != target@,
        decreases joined@.len() - i,
    {
        if joined[i] == *target {
            return Some(i);
        }
        i = i + 1;
    }
    None
}

/// How to reach the room with the parsed identifier `room_id`.
pub fn room_step(joined: &Vec<String>, room_id: String) -> (r: RoomStep)
    ensures
        reaches_room(joined@, room_id@, r),
{
    match joined_room_index(joined, &room_id) {
        Some(i) => RoomStep::UseJoined(i),
        None => RoomStep::Join(room_id),
    }
}

/// The server named by a user handle. A malformed handle is a configuration
/// defect, reported at once.
pub fn chat_server(handle: &str) -> (r: Result<String, ChatError>)
    ensures
        r is Ok <==> is_user_handle(handle@),
        r matches Ok(server) ==> server@ == after_first_colon(handle@),
        r matches Err(e) ==> e == ChatError::InvalidHandle,
{
    match parse_user_handle(handle) {
        Some(server) => Ok(server),
        None => Err(ChatError::InvalidHandle),
    }
}

/// How to reach the room `room_id` from the joined rooms `joined`. A malformed
/// identifier is a configuration defect, reported at once.
pub fn resolve_room(joined: &Vec<String>, room_id: &str) -> (r: Result<RoomStep, ChatError>)
    ensures
        r is Ok <==> is_room_id(room_id@),
        r matches Ok(step) ==> reaches_room(joined@, room_id@, step),
        r matches Err(e) ==> e == ChatError::InvalidRoomId,
{
    match parse_room_id(room_id) {
        Some(id) => Ok(room_step(joined, id)),
        None => Err(ChatError::InvalidRoomId),
    }
}

} // verus!
