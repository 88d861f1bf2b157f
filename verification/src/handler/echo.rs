use vstd::prelude::*;

use crate::engine::Module;
use crate::event::{Action, Event};

verus! {

/// Replies to every direct message by sending the same message elements back
/// to the sender. All other events are ignored.
pub struct EchoHandler;

impl Module for EchoHandler {
    open spec fn spec_name(&self) -> Seq<char> {
        "echo"@
    }

    open spec fn reaction(&self, e: Event) -> Seq<Action> {
        match e {
            Event::FriendMessage { from_uin, elements } => seq![
                Action::SendFriendMessage { target: from_uin, elements },
            ],
            _ => Seq::empty(),
        }
    }

    fn get_name(&self) -> (r: &'static str) {
        "echo"
    }

    fn handle(&self, e: &Event) -> (r: Vec<Action>) {
        match e {
            Event::FriendMessage { from_uin, elements } => {
                let mut out: Vec<Action> = Vec::new();
                out.push(Action::SendFriendMessage {
                    target: *from_uin,
                    elements: elements.clone(),
                });
                proof {
                    assert(out@ =~= self.reaction(*e));
                }
                out
            },
            _ => Vec::new(),
        }
    }
}

} // verus!
