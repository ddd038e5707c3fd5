//! The rolling log: a first-in, first-out ring of lines with a fixed
//! capacity, from which the oldest line leaves when a new one comes in.
use std::collections::VecDeque;
use vstd::prelude::*;
use vstd::string::*;

verus! {

/// The number of lines that the log holds at most.
pub const LOG_CAPACITY: usize = 100;

/// The characters of each line, in order.
pub open spec fn line_texts(lines: Seq<String>) -> Seq<Seq<char>> {
    Seq::new(lines.len(), |i: int| lines[i]@)
}

/// The last `n` of `lines`; all of them where there are no more than `n`.
pub open spec fn newest(lines: Seq<Seq<char>>, n: nat) -> Seq<Seq<char>> {
    if lines.len() <= n {
        lines
    } else {
        lines.skip(lines.len() - n)
    }
}

/// The log after `line` came in: the newest lines, `line` last among them.
pub open spec fn appended(log: Seq<Seq<char>>, line: Seq<char>) -> Seq<Seq<char>> {
    newest(log.push(line), LOG_CAPACITY as nat)
}

/// The log after each of `lines` came in, in order.
pub open spec fn appended_all(log: Seq<Seq<char>>, lines: Seq<Seq<char>>) -> Seq<Seq<char>>
    decreases lines.len(),
{
    if lines.len() == 0 {
        log
    } else {
        appended(appended_all(log, lines.drop_last()), lines.last())
    }
}

/// A log line: the time of day in square brackets, a space, the message.
pub open spec fn stamped(clock: Seq<char>, message: Seq<char>) -> Seq<char> {
    "["@ + clock + "] "@ + message
}

/// A log line: the time of day in square brackets, a space, the message.
pub fn stamp(clock: &str, message: &str) -> (line: String)
    ensures
        line@ == stamped(clock@, message@),
{
    String::from_str("[").concat(clock).concat("] ").concat(message)
}

/// The rolling log. It never holds more lines than its capacity.
#[derive(Debug)]
pub struct LogRing {
    lines: VecDeque<String>,
}

impl View for LogRing {
    type V = Seq<Seq<char>>;

    /// The lines held, oldest first.
    closed spec fn view(&self) -> Seq<Seq<char>> {
        line_texts(self.lines@)
    }
}

impl LogRing {
    #[verifier::type_invariant]
    spec fn within_capacity(self) -> bool {
        self.lines@.len() <= LOG_CAPACITY
    }

    /// A log without lines.
    pub fn new() -> (log: LogRing)
        ensures
            log@ == Seq::<Seq<char>>::empty(),
    {
        let log = LogRing { lines: VecDeque::new() };
        proof {
            assert(log@ =~= Seq::<Seq<char>>::empty());
        }
        log
    }

    /// The number of lines held, never more than the capacity.
    pub fn len(&self) -> (n: usize)
        ensures
            n == self@.len(),
            n <= LOG_CAPACITY,
    {
        proof {
            use_type_invariant(self);
        }
        self.lines.len()
    }

    /// Takes `line` in; where the log is full, the oldest line leaves.
    pub fn push(&mut self, line: String)
        ensures
            final(self)@ == appended(old(self)@, line@),
            final(self)@.len() <= LOG_CAPACITY,
            final(self)@.last() == line@,
    {
        proof {
            use_type_invariant(&*self);
        }
        let mut lines: VecDeque<String> = VecDeque::new();
        std::mem::swap(&mut lines, &mut self.lines);
        let ghost before = lines@;
        if lines.len() >= LOG_CAPACITY {
            let _oldest = lines.pop_front();
        }
        lines.push_back(line);
        proof {
            assert(line_texts(lines@) =~= appended(line_texts(before), line@));
        }
        std::mem::swap(&mut lines, &mut self.lines);
    }

    /// Drops every line.
    pub fn clear(&mut self)
        ensures
            final(self)@ == Seq::<Seq<char>>::empty(),
    {
        self.lines = VecDeque::new();
        proof {
            assert(self@ =~= Seq::<Seq<char>>::empty());
        }
    }

    /// The lines held, oldest first; never more than the capacity.
    pub fn lines(&self) -> (lines: Vec<String>)
        ensures
            line_texts(lines@) == self@,
            lines@.len() <= LOG_CAPACITY,
    {
        proof {
            use_type_invariant(self);
        }
        let mut lines: Vec<String> = Vec::new();
        let mut i: usize = 0;
        while i < self.lines.len()
            invariant
                i <= self.lines@.len(),
                line_texts(lines@) == line_texts(self.lines@).take(i as int),
            decreases self.lines@.len() - i,
        {
            let ghost before = lines@;
            let line = self.lines[i].clone();
            lines.push(line);
            proof {
                assert(line_texts(before.push(line)) =~= line_texts(before).push(line@));
                assert(line_texts(self.lines@).take(i as int).push(self.lines@[i as int]@)
                    =~= line_texts(self.lines@).take(i + 1));
            }
            i += 1;
        }
        proof {
            assert(line_texts(self.lines@).take(self.lines@.len() as int) =~= self@);
        }
        lines
    }
}

/// The log never holds more than its capacity, and after any lines came in
/// it holds the newest of all: whatever it held and those lines, of which
/// the last one in is the last one held.
pub proof fn lemma_log_holds_the_newest(log: Seq<Seq<char>>, lines: Seq<Seq<char>>)
    requires
        log.len() <= LOG_CAPACITY,
    ensures
        appended_all(log, lines) == newest(log + lines, LOG_CAPACITY as nat),
        appended_all(log, lines).len() <= LOG_CAPACITY,
        lines.len() > 0 ==> appended_all(log, lines).last() == lines.last(),
    decreases lines.len(),
{
    if lines.len() == 0 {
        assert(log + lines =~= log);
    } else {
        let front = lines.drop_last();
        lemma_log_holds_the_newest(log, front);
        assert((log + front).push(lines.last()) =~= log + lines);
        assert(appended(newest(log + front, LOG_CAPACITY as nat), lines.last()) =~= newest(
            log + lines,
            LOG_CAPACITY as nat,
        ));
    }
}

/// Once one line more than the capacity came into an empty log, the first
/// of them is gone and the rest are held, the last one in last.
pub proof fn lemma_oldest_line_leaves(lines: Seq<Seq<char>>)
    requires
        lines.len() == LOG_CAPACITY + 1,
    ensures
        appended_all(Seq::empty(), lines) == lines.skip(1),
        appended_all(Seq::empty(), lines).len() == LOG_CAPACITY,
        appended_all(Seq::empty(), lines).last() == lines.last(),
{
    lemma_log_holds_the_newest(Seq::empty(), lines);
    assert(Seq::<Seq<char>>::empty() + lines =~= lines);
}

} // verus!
