use vstd::prelude::*;

use crate::engine::Module;
use crate::event::{Action, Event};

verus! {

/// Turns every recognized event into one structured log entry carrying the
/// event's fields. Unrecognized events produce nothing.
pub struct LoggingHandler;

impl Module for LoggingHandler {
    open spec fn spec_name(&self) -> Seq<char> {
        "logger"@
    }

    open spec fn reaction(&self, e: Event) -> Seq<Action> {
        match e {
            Event::GroupMessage { group_code, elements } => seq![
                Action::LogGroupMessage { group_code, elements },
            ],
            Event::FriendMessage { from_uin, elements } => seq![
                Action::LogFriendMessage { from_uin, elements },
            ],
            Event::GroupTempMessage { from_uin, elements } => seq![
                Action::LogGroupTempMessage { from_uin, elements },
            ],
            Event::GroupRequest { group_code, req_uin, message } => seq![
                Action::LogGroupRequest { group_code, req_uin, message },
            ],
            Event::NewFriendRequest { req_uin, message } => seq![
                Action::LogNewFriendRequest { req_uin, message },
            ],
            Event::Unrecognized => Seq::empty(),
        }
    }

    fn get_name(&self) -> (r: &'static str) {
        "logger"
    }

    fn handle(&self, e: &Event) -> (r: Vec<Action>) {
        let mut out: Vec<Action> = Vec::new();
        match e {
            Event::GroupMessage { group_code, elements } => {
                out.push(Action::LogGroupMessage {
                    group_code: *group_code,
                    elements: elements.clone(),
                });
            },
            Event::FriendMessage { from_uin, elements } => {
                out.push(Action::LogFriendMessage {
                    from_uin: *from_uin,
                    elements: elements.clone(),
                });
            },
            Event::GroupTempMessage { from_uin, elements } => {
                out.push(Action::LogGroupTempMessage {
                    from_uin: *from_uin,
                    elements: elements.clone(),
                });
            },
            Event::GroupRequest { group_code, req_uin, message } => {
                out.push(Action::LogGroupRequest {
                    group_code: *group_code,
                    req_uin: *req_uin,
                    message: message.clone(),
                });
            },
            Event::NewFriendRequest { req_uin, message } => {
                out.push(Action::LogNewFriendRequest {
                    req_uin: *req_uin,
                    message: message.clone(),
                });
            },
            Event::Unrecognized => {},
        }
        proof {
            assert(out@ =~= self.reaction(*e));
        }
        out
    }
}

} // verus!
