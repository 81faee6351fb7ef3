//! The streaming tokenizer: vte's parser, with the chunks it has been fed as a ghost history.
use vstd::prelude::*;
use crate::event::{Event, EventSink};
use crate::model::EventModel;

verus! {

#[verifier::external_type_specification]
#[verifier::external_body]
pub struct ExParser<const N: usize>(vte::Parser<N>);

/// The events that a fresh vte parser reports, in order, when it is fed
/// `chunks`, one `advance` call per chunk.
pub uninterp spec fn vte_chunk_events(chunks: Seq<Seq<u8>>) -> Seq<EventModel>;

pub open spec fn event_views(es: Seq<Event>) -> Seq<EventModel> {
    es.map_values(|e: Event| e@)
}

/// The events that feeding the chunk `b` reports after the chunks `h`.
pub open spec fn fresh_events(h: Seq<Seq<u8>>, b: Seq<u8>) -> Seq<EventModel> {
    vte_chunk_events(h.push(b)).skip(vte_chunk_events(h).len() as int)
}

pub struct Tokenizer {
    parser: vte::Parser,
    chunks: Ghost<Seq<Seq<u8>>>,
}

/// Relies on vte::Parser::new: a parser in its ground state, which has
/// been fed nothing.
#[verifier::external_body]
fn fresh_tokenizer() -> (r: Tokenizer)
    ensures
        r.chunks() == Seq::<Seq<u8>>::empty(),
{
    Tokenizer { parser: vte::Parser::new(), chunks: Ghost(Seq::empty()) }
}

/// Relies on vte::Parser::advance: reports, through the sink, the events
/// that this chunk completes after the chunks fed before.
#[verifier::external_body]
fn advance_parser(t: &mut Tokenizer, bytes: &[u8]) -> (r: Vec<Event>)
    ensures
        final(t).chunks() == old(t).chunks().push(bytes@),
        vte_chunk_events(final(t).chunks()) == vte_chunk_events(old(t).chunks()) + event_views(r@),
{
    let mut sink = EventSink::new();
    t.parser.advance(&mut sink, bytes);
    t.chunks = Ghost(t.chunks@.push(bytes@));
    sink.events
}

impl Tokenizer {
    /// The chunks fed so far, one per call.
    pub closed spec fn chunks(&self) -> Seq<Seq<u8>> {
        self.chunks@
    }

    pub fn new() -> (r: Self)
        ensures
            r.chunks() == Seq::<Seq<u8>>::empty(),
    {
        fresh_tokenizer()
    }

    /// Feeds `bytes` and returns the events they complete.
    pub fn advance(&mut self, bytes: &[u8]) -> (r: Vec<Event>)
        ensures
            final(self).chunks() == old(self).chunks().push(bytes@),
            event_views(r@) == fresh_events(old(self).chunks(), bytes@),
    {
        let ghost h = self.chunks();
        let r = advance_parser(self, bytes);
        assert(vte_chunk_events(h.push(bytes@)).skip(vte_chunk_events(h).len() as int) =~= event_views(r@));
        r
    }
}

} // verus!
