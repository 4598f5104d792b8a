use agent::step::{Layer, WorkFlowBuilder};

struct Tag(&'static str);

#[derive(Debug, PartialEq)]
struct Wrapped(String);

impl Layer<Wrapped> for Tag {
    type Out = Wrapped;

    fn spec_layer(self, next: Wrapped) -> Wrapped {
        self.layer(next)
    }

    fn layer(self, next: Wrapped) -> Wrapped {
        Wrapped(format!("{}({})", self.0, next.0))
    }
}

#[test]
fn layers_wrap_in_the_order_they_are_added() {
    let out = WorkFlowBuilder::new().layer(Tag("a")).layer(Tag("b")).output(Wrapped("s".to_string()));
    assert_eq!(out, Wrapped("a(b(s))".to_string()));
}

#[test]
fn empty_workflow_is_its_step() {
    let out = WorkFlowBuilder::default().switch(Wrapped("s".to_string()));
    assert_eq!(out, Wrapped("s".to_string()));
}

#[test]
fn json_output_asks_for_json() {
    let step = agent::step::JsonOutput::new(agent::Client::new());
    let req = step.request_for("Tom, 30, chess".to_string());
    assert_eq!(req.extra(), &Some(agent::Json::json_object_response_format()));
    assert_eq!(req.messages().len(), 2);
    assert_eq!(req.messages()[1], agent::Message::user_text("Tom, 30, chess".to_string()));
}
