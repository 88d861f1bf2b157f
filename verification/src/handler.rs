pub mod echo;
pub mod logger;

use vstd::prelude::*;

use crate::engine::Module;
use crate::event::{Action, Event};
use crate::handler::echo::EchoHandler;
use crate::handler::logger::LoggingHandler;

verus! {

/// One registered module of this process. The engine's registry is built from
/// these; each variant delegates to the handler it wraps.
pub enum RegisteredModule {
    Echo(EchoHandler),
    Logger(LoggingHandler),
}

impl Module for RegisteredModule {
    open spec fn spec_name(&self) -> Seq<char> {
        match self {
            RegisteredModule::Echo(m) => m.spec_name(),
            RegisteredModule::Logger(m) => m.spec_name(),
        }
    }

    open spec fn reaction(&self, e: Event) -> Seq<Action> {
        match self {
            RegisteredModule::Echo(m) => m.reaction(e),
            RegisteredModule::Logger(m) => m.reaction(e),
        }
    }

    fn get_name(&self) -> (r: &'static str) {
        match self {
            RegisteredModule::Echo(m) => m.get_name(),
            RegisteredModule::Logger(m) => m.get_name(),
        }
    }

    fn handle(&self, e: &Event) -> (r: Vec<Action>) {
        match self {
            RegisteredModule::Echo(m) => m.handle(e),
            RegisteredModule::Logger(m) => m.handle(e),
        }
    }
}

} // verus!
