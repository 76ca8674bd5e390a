use vstd::prelude::*;

verus! {

/// What is left of an allowance after `uses` operations. An absent allowance
/// is one without end.
pub open spec fn spent(allowance: Option<nat>, uses: nat) -> Option<nat> {
    match allowance {
        Some(n) => Some(
            if n >= uses {
                (n - uses) as nat
            } else {
                0
            },
        ),
        None => None,
    }
}

/// Whether an allowance lets `uses` operations succeed.
pub open spec fn affords(allowance: Option<nat>, uses: nat) -> bool {
    match allowance {
        Some(n) => n >= uses,
        None => true,
    }
}

/// A destination for text: sequential writes and an explicit flush.
///
/// A sink may come with a model of itself. Where `modelled` holds, `text` is
/// what the sink holds and `allowance` is how many more operations succeed
/// (`None`: all of them); each write and each flush then succeeds exactly
/// where the allowance lets it, uses one up, and a write that succeeds adds
/// its text and nothing else changes the text. A sink of the outside world,
/// whose answers no model foretells, leaves `modelled` false and promises
/// nothing.
pub trait Sink: Sized {
    /// What a failed write or flush returns.
    type Failure;

    open spec fn modelled(&self) -> bool {
        false
    }

    open spec fn text(&self) -> Seq<char> {
        Seq::empty()
    }

    open spec fn allowance(&self) -> Option<nat> {
        None
    }

    /// Writes `text` after what was written before, or fails.
    fn write_text(&mut self, text: &str) -> (r: Result<(), Self::Failure>)
        ensures
            old(self).modelled() ==> {
                &&& final(self).modelled()
                &&& r is Ok <==> affords(old(self).allowance(), 1)
                &&& final(self).allowance() == spent(old(self).allowance(), 1)
                &&& r is Ok ==> final(self).text() == old(self).text() + text@
                &&& r is Err ==> final(self).text() == old(self).text()
            },
    ;

    /// Flushes what was written so far, or fails.
    fn flush(&mut self) -> (r: Result<(), Self::Failure>)
        ensures
            old(self).modelled() ==> {
                &&& final(self).modelled()
                &&& r is Ok <==> affords(old(self).allowance(), 1)
                &&& final(self).allowance() == spent(old(self).allowance(), 1)
                &&& final(self).text() == old(self).text()
            },
    ;
}

/// One operation of a modelled sink, from `before` to `after`: it succeeds
/// (`ok`) exactly where the allowance lets it, uses one of the allowance up,
/// and adds `added` to the text where it succeeds. A flush adds nothing.
pub open spec fn sink_step<W: Sink>(before: W, after: W, added: Seq<char>, ok: bool) -> bool {
    before.modelled() ==> {
        &&& after.modelled()
        &&& ok == affords(before.allowance(), 1)
        &&& after.allowance() == spent(before.allowance(), 1)
        &&& after.text() == if ok {
            before.text() + added
        } else {
            before.text()
        }
    }
}

/// A sink together with the history of what it was asked and what it answered.
/// The history is kept for every sink, modelled or not.
///
/// `accepted` is the text of the writes that the sink answered with `Ok`, in
/// the order of the calls: a write that fails counts as not written. `flushed`
/// is what had been accepted at the last flush that the sink answered with
/// `Ok`. `failures` holds the errors that the sink has returned, oldest first.
pub struct Journal<W: Sink> {
    inner: W,
    accepted: Ghost<Seq<char>>,
    flushed: Ghost<Seq<char>>,
    failures: Ghost<Seq<W::Failure>>,
}

impl<W: Sink> Journal<W> {
    /// Starts an empty history around a sink.
    pub fn new(sink: W) -> (r: Journal<W>)
        ensures
            r.sink() == sink,
            r.accepted() == Seq::<char>::empty(),
            r.flushed() == Seq::<char>::empty(),
            r.failures() == Seq::<W::Failure>::empty(),
    {
        Journal {
            inner: sink,
            accepted: Ghost(Seq::empty()),
            flushed: Ghost(Seq::empty()),
            failures: Ghost(Seq::empty()),
        }
    }

    /// The sink as it stands.
    pub closed spec fn sink(&self) -> W {
        self.inner
    }

    pub closed spec fn accepted(&self) -> Seq<char> {
        self.accepted@
    }

    pub closed spec fn flushed(&self) -> Seq<char> {
        self.flushed@
    }

    pub closed spec fn failures(&self) -> Seq<W::Failure> {
        self.failures@
    }

    /// What one write of `text` makes of `before`, where the sink answered with
    /// `r`: the sink took one step, the text is accepted or the error is
    /// recorded, and in either case nothing more is flushed.
    pub open spec fn after_write(
        self,
        before: Journal<W>,
        text: Seq<char>,
        r: Result<(), W::Failure>,
    ) -> bool {
        &&& sink_step(before.sink(), self.sink(), text, r is Ok)
        &&& self.flushed() == before.flushed()
        &&& match r {
            Ok(_) => self.accepted() == before.accepted() + text && self.failures()
                == before.failures(),
            Err(e) => self.accepted() == before.accepted() && self.failures()
                == before.failures().push(e),
        }
    }

    /// What one flush makes of `before`, where the sink answered with `r`: the
    /// sink took one step, and all that is accepted is flushed or the error is
    /// recorded.
    pub open spec fn after_flush(self, before: Journal<W>, r: Result<(), W::Failure>) -> bool {
        &&& sink_step(before.sink(), self.sink(), Seq::empty(), r is Ok)
        &&& self.accepted() == before.accepted()
        &&& match r {
            Ok(_) => self.flushed() == self.accepted() && self.failures() == before.failures(),
            Err(e) => self.flushed() == before.flushed() && self.failures()
                == before.failures().push(e),
        }
    }

    /// The sink, to read.
    pub fn inner(&self) -> (r: &W)
        ensures
            *r == self.sink(),
    {
        &self.inner
    }

    /// Gives the sink back.
    pub fn into_inner(self) -> (r: W)
        ensures
            r == self.sink(),
    {
        self.inner
    }

    /// Hands `text` to the sink in one write and records the answer.
    pub fn write_text(&mut self, text: &str) -> (r: Result<(), W::Failure>)
        ensures
            (*final(self)).after_write(*old(self), text@, r),
    {
        let r = self.inner.write_text(text);
        let ghost answer = r;
        proof {
            match answer {
                Ok(_) => {
                    self.accepted@ = self.accepted@ + text@;
                },
                Err(e) => {
                    self.failures@ = self.failures@.push(e);
                },
            }
        }
        r
    }

    /// Flushes the sink and records the answer.
    pub fn flush(&mut self) -> (r: Result<(), W::Failure>)
        ensures
            (*final(self)).after_flush(*old(self), r),
    {
        let r = self.inner.flush();
        let ghost answer = r;
        assert(old(self).sink().text() + Seq::<char>::empty() =~= old(self).sink().text());
        proof {
            match answer {
                Ok(_) => {
                    self.flushed@ = self.accepted@;
                },
                Err(e) => {
                    self.failures@ = self.failures@.push(e);
                },
            }
        }
        r
    }
}

/// A sink that keeps the text in memory and never fails.
pub struct MemorySink {
    text: String,
}

impl MemorySink {
    /// An empty sink.
    pub fn new() -> (r: MemorySink)
        ensures
            r.modelled(),
            r.text() == Seq::<char>::empty(),
            r.allowance() == None::<nat>,
    {
        MemorySink { text: String::new() }
    }

    /// The text written so far.
    pub fn as_str(&self) -> (r: &str)
        ensures
            r@ == self.text(),
    {
        self.text.as_str()
    }
}

impl Sink for MemorySink {
    type Failure = ();

    closed spec fn modelled(&self) -> bool {
        true
    }

    closed spec fn text(&self) -> Seq<char> {
        self.text@
    }

    closed spec fn allowance(&self) -> Option<nat> {
        None
    }

    fn write_text(&mut self, text: &str) -> (r: Result<(), ()>) {
        self.text.append(text);
        Ok(())
    }

    fn flush(&mut self) -> (r: Result<(), ()>) {
        Ok(())
    }
}

/// The error of a `BoundedSink` whose allowance is used up.
#[derive(Clone, Copy, Debug, PartialEq, Eq, Structural)]
pub struct Exhausted;

/// A sink in memory with an allowance of operations. Each write and each flush
/// that succeeds uses one up; with none left every operation fails.
pub struct BoundedSink {
    text: String,
    left: usize,
}

impl BoundedSink {
    /// An empty sink that lets `allowance` operations succeed.
    pub fn new(allowance: usize) -> (r: BoundedSink)
        ensures
            r.modelled(),
            r.text() == Seq::<char>::empty(),
            r.allowance() == Some(allowance as nat),
    {
        BoundedSink { text: String::new(), left: allowance }
    }

    /// How many more operations will succeed.
    pub fn remaining(&self) -> (r: usize)
        ensures
            self.allowance() == Some(r as nat),
    {
        self.left
    }

    /// The text written so far.
    pub fn as_str(&self) -> (r: &str)
        ensures
            r@ == self.text(),
    {
        self.text.as_str()
    }
}

impl Sink for BoundedSink {
    type Failure = Exhausted;

    closed spec fn modelled(&self) -> bool {
        true
    }

    closed spec fn text(&self) -> Seq<char> {
        self.text@
    }

    closed spec fn allowance(&self) -> Option<nat> {
        Some(self.left as nat)
    }

    fn write_text(&mut self, text: &str) -> (r: Result<(), Exhausted>) {
        if self.left == 0 {
            Err(Exhausted)
        } else {
            self.left = self.left - 1;
            self.text.append(text);
            Ok(())
        }
    }

    fn flush(&mut self) -> (r: Result<(), Exhausted>) {
        if self.left == 0 {
            Err(Exhausted)
        } else {
            self.left = self.left - 1;
            Ok(())
        }
    }
}

} // verus!
