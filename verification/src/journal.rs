//! The plantation log: a short list of the most recent lines.
use vstd::prelude::*;

verus! {

/// How many lines the log keeps.
pub const LOG_CAPACITY: usize = 8;

/// The text of each line of a log.
#[verifier::opaque]
pub open spec fn lines(log: Seq<String>) -> Seq<Seq<char>> {
    log.map_values(|s: String| s@)
}

/// `lines` keeps the length of a log.
pub proof fn lemma_lines_len(s: Seq<String>)
    ensures
        lines(s).len() == s.len(),
{
    reveal(lines);
}

/// `lines` takes each entry by its text.
pub proof fn lemma_lines_index(s: Seq<String>, i: int)
    requires
        0 <= i < s.len(),
    ensures
        lines(s)[i] == s[i]@,
        lines(s).len() == s.len(),
{
    reveal(lines);
}

/// The newest `LOG_CAPACITY` entries of `s` (all of `s` when it is short enough).
pub open spec fn newest<A>(s: Seq<A>) -> Seq<A> {
    if s.len() <= LOG_CAPACITY {
        s
    } else {
        s.subrange(s.len() - LOG_CAPACITY, s.len() as int)
    }
}

/// The log after one more line is written to it.
#[verifier::opaque]
pub open spec fn logged(log: Seq<Seq<char>>, line: Seq<char>) -> Seq<Seq<char>> {
    newest(log.push(line))
}

/// Appends `line` and drops the oldest lines until at most `LOG_CAPACITY` remain.
pub fn log_line(log: &mut Vec<String>, line: String)
    ensures
        lines(final(log)@) == logged(lines(old(log)@), line@),
        final(log)@.len() <= LOG_CAPACITY,
        final(log)@.len() > 0,
        final(log)@.last()@ == line@,
{
    let ghost pushed = old(log)@.push(line);
    log.push(line);
    assert(log@ == pushed);
    while log.len() > LOG_CAPACITY
        invariant
            pushed.len() >= log@.len() >= 1,
            log@.len() >= LOG_CAPACITY || log@.len() == pushed.len(),
            log@ == pushed.subrange(pushed.len() - log@.len(), pushed.len() as int),
        decreases log.len(),
    {
        log.remove(0);
    }
    proof {
        reveal(logged);
        reveal(lines);
        let n = pushed.len();
        if n <= LOG_CAPACITY {
            assert(log@ =~= pushed);
        } else {
            assert(log@.len() == LOG_CAPACITY);
        }
        assert(lines(log@) =~= newest(lines(pushed)));
    }
}

/// Writes a literal line to the log.
pub fn log_text(log: &mut Vec<String>, line: &str)
    ensures
        lines(final(log)@) == logged(lines(old(log)@), line@),
        final(log)@.len() <= LOG_CAPACITY,
{
    log_line(log, line.to_owned());
}

} // verus!
