use vstd::prelude::*;

verus! {

/// One decoded occurrence received from the connection once a session is
/// active. Dispatch never mutates an event; every module sees the same value.
#[derive(Clone, Debug, PartialEq, Eq)]
pub enum Event {
    FriendMessage { from_uin: i64, elements: String },
    GroupMessage { group_code: i64, elements: String },
    GroupTempMessage { from_uin: i64, elements: String },
    GroupRequest { group_code: i64, req_uin: i64, message: String },
    NewFriendRequest { req_uin: i64, message: String },
    Unrecognized,
}

/// A side effect that a module asks the surrounding runtime to perform in
/// response to an event. Modules decide; the runtime sends and logs.
#[derive(Debug, PartialEq, Eq)]
pub enum Action {
    SendFriendMessage { target: i64, elements: String },
    LogGroupMessage { group_code: i64, elements: String },
    LogFriendMessage { from_uin: i64, elements: String },
    LogGroupTempMessage { from_uin: i64, elements: String },
    LogGroupRequest { group_code: i64, req_uin: i64, message: String },
    LogNewFriendRequest { req_uin: i64, message: String },
}

} // verus!
