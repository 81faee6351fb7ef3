//! Events recognized by the escape-sequence tokenizer, and the sink that collects them.
use vstd::prelude::*;
use crate::model::EventModel;

verus! {

#[verifier::external_type_specification]
#[verifier::external_body]
pub struct ExParams(vte::Params);

/// One event of the byte stream: a printable character, a control byte,
/// a control sequence with its parameters and final character, or an
/// operating-system command (which has no effect here).
pub enum Event {
    Print(char),
    Execute(u8),
    Csi(Vec<Vec<u16>>, char),
    Osc,
}

impl View for Event {
    type V = EventModel;

    open spec fn view(&self) -> EventModel {
        match self {
            Event::Print(c) => EventModel::Print(*c),
            Event::Execute(b) => EventModel::Execute(*b),
            Event::Csi(p, c) => EventModel::Csi(p@.map_values(|v: Vec<u16>| v@), *c),
            Event::Osc => EventModel::Osc,
        }
    }
}

/// Collects the events that the tokenizer reports, in order.
pub struct EventSink {
    pub events: Vec<Event>,
}

impl EventSink {
    pub fn new() -> (r: Self)
        ensures
            r.events@.len() == 0,
    {
        EventSink { events: Vec::new() }
    }
}

/// Relies on vte::Params::iter: yields each parameter as the slice of its
/// value followed by its subparameters.
#[verifier::external_body]
fn params_list(p: &vte::Params) -> Vec<Vec<u16>> {
    p.iter().map(|s| s.to_vec()).collect()
}

impl vte::Perform for EventSink {
    fn print(&mut self, c: char) {
        self.events.push(Event::Print(c));
    }

    fn execute(&mut self, byte: u8) {
        self.events.push(Event::Execute(byte));
    }

    fn csi_dispatch(&mut self, params: &vte::Params, _intermediates: &[u8], _ignore: bool, action: char) {
        let p = params_list(params);
        self.events.push(Event::Csi(p, action));
    }

    fn osc_dispatch(&mut self, _params: &[&[u8]], _bell_terminated: bool) {
        self.events.push(Event::Osc);
    }
}

} // verus!
