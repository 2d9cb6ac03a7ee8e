//! Accumulate named, sequential duration measurements during request handling
//! and format them as a single `Server-Timing` HTTP header value.
//!
//! Create a [`Timer`], call [`Timer::add`] at the end of each named phase, and
//! attach the header [`Timer::header_key`] / [`Timer::header_value`] pair to
//! the response.

use vstd::prelude::*;
use std::time::Instant;

pub mod clock;
pub mod wire;

verus! {

/// One measurement: a label and the whole milliseconds elapsed since the
/// previous checkpoint (or since the timer was created, for the first).
struct Timing {
    name: String,
    /// Time in milliseconds.
    duration: u128,
}

/// Timer used to share performance metrics with the client through the HTTP
/// `Server-Timing` header.
///
/// Its view is the sequence of recorded measurements, in recording order,
/// each a pair of the label as given and the measured milliseconds.
pub struct Timer {
    last: Instant,
    timings: Vec<Timing>,
}

impl View for Timer {
    type V = Seq<(Seq<char>, u128)>;

    closed spec fn view(&self) -> Seq<(Seq<char>, u128)> {
        self.timings@.map(|i: int, t: Timing| (t.name@, t.duration))
    }
}

impl Timer {
    /// A fresh timer: no measurements, counting from now.
    pub fn new() -> (t: Timer)
        ensures
            t@ == Seq::<(Seq<char>, u128)>::empty(),
    {
        let t = Timer { last: Instant::now(), timings: Vec::new() };
        proof {
            assert(t@ =~= Seq::<(Seq<char>, u128)>::empty());
        }
        t
    }

    /// Adds a named measurement, counting from the last one (or from
    /// creation, for the first). The label is stored as given; it is
    /// sanitized only when the header value is rendered. The measured
    /// milliseconds depend on the clock, so the new entry's duration is not
    /// pinned down; everything else about the new state is.
    pub fn add(&mut self, name: &str)
        ensures
            final(self)@.len() == old(self)@.len() + 1,
            final(self)@.drop_last() == old(self)@,
            final(self)@.last().0 == name@,
    {
        let now = Instant::now();
        let duration = now.duration_since(self.last).as_millis();
        self.last = now;
        self.record(name, duration);
    }

    /// Appends a measurement with the given label and duration.
    fn record(&mut self, name: &str, duration: u128)
        ensures
            final(self)@ == old(self)@.push((name@, duration)),
    {
        self.timings.push(Timing { name: name.to_owned(), duration });
        proof {
            assert(final(self)@ =~= old(self)@.push((name@, duration)));
        }
    }

    /// Header key for `Server-Timing`: constant, whatever the timer's state.
    pub fn header_key() -> (r: &'static str)
        ensures
            r@ == "Server-Timing"@,
    {
        "Server-Timing"
    }

    /// Returns the value for a `Server-Timing` header: each measurement in
    /// recording order as `<sanitized-label>;dur=<milliseconds>`, joined with
    /// `", "`. Reading the value changes nothing, so rendering twice without
    /// an intervening checkpoint yields identical output.
    pub fn header_value(&self) -> (r: String)
        ensures
            r@ == wire::render_str(self@),
    {
        let mut out = String::new();
        let n = self.timings.len();
        let mut i: usize = 0;
        while i < n
            invariant
                i <= n,
                n == self.timings@.len(),
                self@.len() == n,
                self@ == self.timings@.map(|k: int, t: Timing| (t.name@, t.duration)),
                out@ == wire::render_str(self@.take(i as int)),
            decreases n - i,
        {
            if i > 0 {
                out.append(", ");
            }
            let t = &self.timings[i];
            wire::append_sanitized(&mut out, t.name.as_str());
            out.append(";dur=");
            wire::append_decimal(&mut out, t.duration);
            proof {
                assert(self@[i as int] == (t.name@, t.duration));
                assert(self@.take(i as int).push(self@[i as int]) =~= self@.take(i + 1 as int));
                wire::lemma_render_push(self@.take(i as int), self@[i as int]);
            }
            i += 1;
        }
        proof {
            assert(self@.take(n as int) =~= self@);
        }
        out
    }
}

impl Default for Timer {
    /// The same as [`Timer::new`]: a fresh timer with no measurements.
    fn default() -> (t: Timer)
        ensures
            t@ == Seq::<(Seq<char>, u128)>::empty(),
    {
        Timer::new()
    }
}

} // verus!
