use vstd::prelude::*;
use vstd::string::StringExecFns;

verus! {

/// A collector of non-fatal diagnostic messages produced during multi-step
/// sweeps. While work runs it is a write-only sink; at teardown,
/// `summary_lines` renders every collected warning, in insertion order,
/// inside a bannered block, or nothing at all when no warning was added. A
/// shell that shares one collector across threads guards it with a lock of
/// its own and prints the summary exactly once.
#[derive(Debug)]
pub struct WarningCollector {
    messages: Vec<String>,
}

impl WarningCollector {
    /// The collected warning messages, in insertion order.
    pub closed spec fn warnings(&self) -> Seq<Seq<char>> {
        self.messages.deep_view()
    }

    /// Creates a collector holding no warnings.
    pub fn new() -> (r: WarningCollector)
        ensures
            r.warnings() == Seq::<Seq<char>>::empty(),
    {
        let r = WarningCollector { messages: Vec::new() };
        proof {
            assert(r.warnings() =~= Seq::<Seq<char>>::empty());
        }
        r
    }

    /// Appends a warning message. Every message already collected stays, in
    /// its place; the new one goes to the end.
    pub fn add_warning(&mut self, msg: String)
        ensures
            final(self).warnings() == old(self).warnings().push(msg@),
    {
        self.messages.push(msg);
        proof {
            assert(self.warnings() =~= old(self).warnings().push(msg@));
        }
    }

    /// True iff no warning has been collected.
    pub fn is_empty(&self) -> (r: bool)
        ensures
            r == (self.warnings().len() == 0),
    {
        self.messages.len() == 0
    }

    /// The teardown report: nothing at all when no warning was collected;
    /// otherwise a banner line, every warning in insertion order, and a
    /// closing banner line.
    pub fn summary_lines(&self) -> (r: Vec<String>)
        ensures
            self.warnings().len() == 0 ==> r@.len() == 0,
            self.warnings().len() > 0 ==> {
                &&& r.deep_view().len() == self.warnings().len() + 2
                &&& r.deep_view()[0] == "=== Warnings Summary ==="@
                &&& forall|i: int|
                    0 <= i < self.warnings().len() ==> r.deep_view()[i + 1] == self.warnings()[i]
                &&& r.deep_view()[r.deep_view().len() - 1] == "========================"@
            },
    {
        let mut out: Vec<String> = Vec::new();
        if self.messages.len() == 0 {
            return out;
        }
        out.push(String::from_str("=== Warnings Summary ==="));
        let mut idx: usize = 0;
        while idx < self.messages.len()
            invariant
                idx <= self.messages@.len(),
                out@.len() == idx + 1,
                out@[0]@ == "=== Warnings Summary ==="@,
                forall|j: int| 0 <= j < idx ==> #[trigger] out@[j + 1]@ == self.messages@[j]@,
            decreases self.messages@.len() - idx,
        {
            out.push(self.messages[idx].clone());
            idx += 1;
        }
        out.push(String::from_str("========================"));
        proof {
            assert(forall|i: int|
                0 <= i < self.warnings().len() ==> #[trigger] out.deep_view()[i + 1]
                    == self.warnings()[i]);
        }
        out
    }
}

/// Warnings survive further additions: after another message is recorded,
/// the new list still contains every message the old list contained, and
/// the message just added. However concurrent callers interleave their
/// additions, each message every caller added is present at teardown.
pub proof fn lemma_add_warning_keeps_all(pre: Seq<Seq<char>>, msg: Seq<char>)
    ensures
        pre.push(msg).contains(msg),
        forall|m: Seq<char>| pre.contains(m) ==> #[trigger] pre.push(msg).contains(m),
{
    assert(pre.push(msg)[pre.len() as int] == msg);
    assert forall|m: Seq<char>| pre.contains(m) implies #[trigger] pre.push(msg).contains(m) by {
        let i = choose|i: int| 0 <= i < pre.len() && pre[i] == m;
        assert(pre.push(msg)[i] == m);
    }
}

} // verus!
