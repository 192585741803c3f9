//! Selecting the longer of two string spans.
//!
//! Length is measured in characters. A tie resolves to the second argument:
//! that is a deliberate, observable policy, not an accident. The announced
//! variant renders an annotation and hands it to an injected sink exactly
//! once, unconditionally, before the comparison decides anything.

use vstd::prelude::*;
use vstd::string::StrSliceExecFns;
use vstd::string::StringExecFns;

verus! {

/// The span that `longest` selects: `x` when it is strictly longer, else `y`.
pub open spec fn spec_longest(x: Seq<char>, y: Seq<char>) -> Seq<char> {
    if x.len() > y.len() {
        x
    } else {
        y
    }
}

/// Returns whichever span holds strictly more characters; on a tie, the
/// second argument wins.
pub fn longest<'a>(x: &'a str, y: &'a str) -> (r: &'a str)
    ensures
        r@ == spec_longest(x@, y@),
        x@.len() > y@.len() ==> r@ == x@,
        x@.len() <= y@.len() ==> r@ == y@,
{
    if x.unicode_len() > y.unicode_len() {
        x
    } else {
        y
    }
}

/// An injected sink that records every emitted message, in order.
pub struct Sink {
    messages: Vec<String>,
}

impl View for Sink {
    type V = Seq<Seq<char>>;

    closed spec fn view(&self) -> Seq<Seq<char>> {
        self.messages.deep_view()
    }
}

impl Sink {
    /// A sink that has recorded nothing yet.
    pub fn new() -> (s: Sink)
        ensures
            s@ == Seq::<Seq<char>>::empty(),
    {
        let s = Sink { messages: Vec::new() };
        proof {
            assert(s@ =~= Seq::<Seq<char>>::empty());
        }
        s
    }

    /// Records one message after everything recorded so far.
    pub fn emit(&mut self, msg: String)
        ensures
            final(self)@ == old(self)@.push(msg@),
    {
        self.messages.push(msg);
        proof {
            assert(self@ =~= old(self)@.push(msg@));
        }
    }

    /// A borrow of every recorded message, in emission order.
    pub fn messages(&self) -> (r: &Vec<String>)
        ensures
            r.deep_view() == self@,
    {
        &self.messages
    }
}

/// The rendered form of an annotation, as the announced variant emits it.
pub open spec fn announcement_of(ann: Seq<char>) -> Seq<char> {
    "Announcement! "@ + ann
}

/// Like `longest`, but first renders the annotation and emits it to the
/// sink.
///
/// The sink gains exactly one message per call — the rendered annotation —
/// whatever span ends up selected: the emission happens before the
/// comparison and does not depend on its outcome.
pub fn longest_announced<'a>(x: &'a str, y: &'a str, ann: &str, sink: &mut Sink) -> (r: &'a str)
    ensures
        final(sink)@ == old(sink)@.push(announcement_of(ann@)),
        r@ == spec_longest(x@, y@),
{
    let msg = String::from_str("Announcement! ").concat(ann);
    sink.emit(msg);
    longest(x, y)
}

} // verus!
