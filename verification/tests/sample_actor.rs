//! Handlers invoked directly, one message type at a time, on a sample
//! actor whose state records what it heard.

use protoactor::actor::{Actor, Handler};
use protoactor::context::Context;
use protoactor::message::Message;
use protoactor::pid::Pid;

// A simple example of an actor, which has a name as its state.
pub struct SampleActor {
    pub name: String,
    pub result: String,
}

impl Actor for SampleActor {}

// A simple message that represents saying "Hi".
#[derive(Debug, PartialEq)]
pub struct HiMsg;

impl Message for HiMsg {
    type Result = ();
}

// A simple message that represents saying "Bye".
#[derive(Debug, PartialEq)]
pub struct ByeMsg;

impl Message for ByeMsg {
    type Result = ();
}

#[derive(Debug, PartialEq)]
pub enum MsgVariants<'a> {
    SetName(&'a str),
    Hi,
    Bye,
}

impl<'a> Message for MsgVariants<'a> {
    type Result = ();
}

impl Handler<HiMsg> for SampleActor {
    fn handle(&mut self, _msg: HiMsg, _ctx: &mut Context) {
        self.result = format!("Hi, {}", self.name);
    }
}

impl Handler<ByeMsg> for SampleActor {
    fn handle(&mut self, _msg: ByeMsg, _ctx: &mut Context) {
        self.result = format!("Bye, {}", self.name);
    }
}

impl Handler<MsgVariants<'_>> for SampleActor {
    fn handle(&mut self, msg: MsgVariants, _ctx: &mut Context) {
        match msg {
            MsgVariants::SetName(name) => {
                self.name = name.to_string();
            }
            MsgVariants::Hi => {
                self.result = format!("Hi, {}", self.name);
            }
            MsgVariants::Bye => {
                self.result = format!("Bye, {}", self.name);
            }
        }
    }
}

#[test]
fn test_sample_actor() {
    let mut sample_actor = SampleActor {
        name: "".to_string(),
        result: "".to_string(),
    };
    let mut ctx = Context::new(Pid::new("$0".to_string(), "nohost".to_string()));

    Handler::<MsgVariants>::handle(&mut sample_actor, MsgVariants::SetName("Alice"), &mut ctx);
    assert_eq!(sample_actor.name, "Alice");
    assert_eq!(sample_actor.result, "");
    Handler::<MsgVariants>::handle(&mut sample_actor, MsgVariants::Hi, &mut ctx);
    assert_eq!(sample_actor.name, "Alice");
    assert_eq!(sample_actor.result, "Hi, Alice");
    Handler::<MsgVariants>::handle(&mut sample_actor, MsgVariants::Bye, &mut ctx);
    assert_eq!(sample_actor.name, "Alice");
    assert_eq!(sample_actor.result, "Bye, Alice");

    Handler::<HiMsg>::handle(&mut sample_actor, HiMsg, &mut ctx);
    assert_eq!(sample_actor.name, "Alice");
    assert_eq!(sample_actor.result, "Hi, Alice");
    Handler::<ByeMsg>::handle(&mut sample_actor, ByeMsg, &mut ctx);
    assert_eq!(sample_actor.name, "Alice");
    assert_eq!(sample_actor.result, "Bye, Alice");
}
