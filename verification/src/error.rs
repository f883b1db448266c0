use vstd::prelude::*;

verus! {

/// The one failure this library knows: a room name that matches no
/// room of the house.
#[derive(Debug, PartialEq)]
pub enum Error {
    RoomNotFound(String),
}

} // verus!
