//! Greeting over a host-supplied capability.
//!
//! The embedding environment must supply one capability: it is handed a
//! text and performs some host-defined visible action with it. This module
//! only declares that port, as the `Host` trait; `greet` builds the
//! greeting text and hands it over exactly once.

use vstd::prelude::*;
use vstd::string::StringExecFns;

verus! {

/// The greeting text for `name`: the literal concatenation
/// `"Hello, " + name + "!"`, with no re-interpretation of `name`.
pub open spec fn greeting_of(name: Seq<char>) -> Seq<char> {
    "Hello, "@ + name + "!"@
}

/// The capability the embedding host must supply. `alerts` is the record
/// of the texts handed to the host so far, oldest first; `alert` hands one
/// more text over.
pub trait Host {
    spec fn alerts(&self) -> Seq<Seq<char>>;

    fn alert(&mut self, msg: &str)
        ensures
            final(self).alerts() == old(self).alerts().push(msg@),
    ;
}

/// Builds the greeting text for `name` by literal concatenation.
pub fn greeting(name: &str) -> (r: String)
    ensures
        r@ == greeting_of(name@),
{
    let mut r = String::from_str("Hello, ");
    r.append(name);
    r.append("!");
    r
}

/// Greets `name`: builds the greeting text and hands it to the host,
/// exactly once, as the one new entry of the host's record.
pub fn greet<H: Host>(host: &mut H, name: &str)
    ensures
        final(host).alerts() == old(host).alerts().push(greeting_of(name@)),
{
    let msg = greeting(name);
    host.alert(msg.as_str());
}

/// A host that only records each text it is handed, so the greeting path
/// can run without an embedding runtime.
pub struct RecordingHost {
    messages: Vec<String>,
}

impl RecordingHost {
    /// A recording host that has been handed nothing yet.
    pub fn new() -> (h: RecordingHost)
        ensures
            h.alerts() == Seq::<Seq<char>>::empty(),
    {
        let h = RecordingHost { messages: Vec::new() };
        proof {
            assert(h.alerts() =~= Seq::<Seq<char>>::empty());
        }
        h
    }

    /// The texts handed over so far, oldest first.
    pub fn messages(&self) -> (m: &Vec<String>)
        ensures
            m@.map_values(|s: String| s@) == self.alerts(),
    {
        &self.messages
    }
}

impl Host for RecordingHost {
    closed spec fn alerts(&self) -> Seq<Seq<char>> {
        self.messages@.map_values(|s: String| s@)
    }

    fn alert(&mut self, msg: &str) {
        let owned = String::from_str(msg);
        self.messages.push(owned);
        proof {
            assert(self.alerts() =~~= old(self).alerts().push(msg@));
        }
    }
}

} // verus!
