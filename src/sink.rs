//! The result sink: counts outcomes, diverts failures caused on the local side
//! to a ledger of bare hostnames, and frames the others into one document.
use vstd::prelude::*;
use vstd::string::*;
use crate::outcome::Response;
use crate::text::{before_first, contains_text, has_infix, text_before};

verus! {

/// Upstream error code of a connection the remote side refused under load.
pub const OVERLOAD_SIGNATURE: &'static str = "[-42]";

/// Upstream error code of a failure to reach the local authentication agent.
pub const AGENT_SIGNATURE: &'static str = "[-19]";

/// Opens the primary document.
pub const DOCUMENT_OPEN: &'static str = "[\n";

/// Stands between two records of the primary document.
pub const RECORD_SEPARATOR: &'static str = ",\n";

/// Closes the primary document.
pub const DOCUMENT_CLOSE: &'static str = "\n]";

/// A failure whose message carries the overload signature.
pub open spec fn is_overload(r: Response) -> bool {
    !r.status && has_infix(r.result@, OVERLOAD_SIGNATURE@)
}

/// A failure caused on our side: transient, worth retrying later.
pub open spec fn is_our_side(r: Response) -> bool {
    !r.status && (has_infix(r.result@, OVERLOAD_SIGNATURE@) || has_infix(
        r.result@,
        AGENT_SIGNATURE@,
    ))
}

/// The outcomes of `s` that go to the primary document, in order.
pub open spec fn kept(s: Seq<Response>) -> Seq<Response> {
    s.filter(|r: Response| !is_our_side(r))
}

/// The bare hostnames of the outcomes of `s` that go to the ledger, in order.
pub open spec fn diverted_hosts(s: Seq<Response>) -> Seq<Seq<char>> {
    s.filter(|r: Response| is_our_side(r)).map_values(|r: Response| before_first(r.hostname@, ':'))
}

/// Number of successes in `s`.
pub open spec fn successes(s: Seq<Response>) -> nat {
    s.filter(|r: Response| r.status).len()
}

/// Number of failures in `s`.
pub open spec fn failures(s: Seq<Response>) -> nat {
    s.filter(|r: Response| !r.status).len()
}

/// Every outcome is a success or a failure, never both.
pub proof fn lemma_counts_cover(s: Seq<Response>)
    ensures
        successes(s) + failures(s) == s.len(),
    decreases s.len(),
{
    reveal(Seq::filter);
    if s.len() > 0 {
        lemma_counts_cover(s.drop_last());
    }
}

/// Whether `r` carries the overload signature.
pub fn overload_failure(r: &Response) -> (b: bool)
    ensures
        b == is_overload(*r),
{
    !r.status && contains_text(r.result.as_str(), OVERLOAD_SIGNATURE)
}

/// Whether `r` is a failure caused on our side rather than by the remote host.
pub fn our_side_failure(r: &Response) -> (b: bool)
    ensures
        b == is_our_side(*r),
{
    !r.status && (contains_text(r.result.as_str(), OVERLOAD_SIGNATURE) || contains_text(
        r.result.as_str(),
        AGENT_SIGNATURE,
    ))
}

/// Where the sink put one outcome.
pub enum Disposition {
    /// Appended to the primary document as its record number `index`.
    Kept { index: usize },
    /// Set aside: the bare hostname went to the ledger.
    Diverted { host: String },
}

/// Consumes a stream of outcomes one at a time.
pub struct ResultSink {
    pub ok_count: usize,
    pub error_count: usize,
    /// The outcomes for the primary document, in arrival order.
    pub primary: Vec<Response>,
    /// Bare hostnames of failures caused on our side, in arrival order.
    pub ledger: Vec<String>,
    pub consumed: Ghost<Seq<Response>>,
}

impl ResultSink {
    /// Everything consumed so far, in order.
    pub open spec fn consumed(&self) -> Seq<Response> {
        self.consumed@
    }

    pub open spec fn ledger_view(&self) -> Seq<Seq<char>> {
        self.ledger@.map_values(|h: String| h@)
    }

    pub open spec fn wf(&self) -> bool {
        &&& self.ok_count == successes(self.consumed@)
        &&& self.error_count == failures(self.consumed@)
        &&& self.primary@ == kept(self.consumed@)
        &&& self.ledger@.map_values(|h: String| h@) == diverted_hosts(self.consumed@)
    }

    pub fn new() -> (s: ResultSink)
        ensures
            s.wf(),
            s.consumed() == Seq::<Response>::empty(),
            s.ok_count == 0,
            s.error_count == 0,
            s.primary@ == Seq::<Response>::empty(),
            s.ledger@ == Seq::<String>::empty(),
    {
        let s = ResultSink {
            ok_count: 0,
            error_count: 0,
            primary: Vec::new(),
            ledger: Vec::new(),
            consumed: Ghost(Seq::empty()),
        };
        proof {
            assert(s.ledger@.map_values(|h: String| h@) =~= Seq::empty());
            assert(kept(Seq::empty()) =~= Seq::empty());
            assert(diverted_hosts(Seq::empty()) =~= Seq::empty());
            assert(Seq::<Response>::empty().filter(|r: Response| r.status) =~= Seq::empty());
            assert(Seq::<Response>::empty().filter(|r: Response| !r.status) =~= Seq::empty());
        }
        s
    }

    /// Takes one outcome: counts it, then keeps it for the primary document or
    /// diverts its bare hostname to the ledger.
    pub fn consume(&mut self, r: Response) -> (d: Disposition)
        requires
            old(self).wf(),
            old(self).ok_count + old(self).error_count < usize::MAX,
        ensures
            final(self).wf(),
            final(self).consumed() == old(self).consumed().push(r),
            final(self).ok_count == old(self).ok_count + (if r.status { 1int } else { 0 }),
            final(self).error_count == old(self).error_count + (if r.status { 0int } else { 1 }),
            is_our_side(r) ==> {
                &&& final(self).primary@ == old(self).primary@
                &&& final(self).ledger_view() == old(self).ledger_view().push(
                    before_first(r.hostname@, ':'),
                )
                &&& d matches Disposition::Diverted { host }
                &&& host@ == before_first(r.hostname@, ':')
            },
            !is_our_side(r) ==> {
                &&& final(self).primary@ == old(self).primary@.push(r)
                &&& final(self).ledger@ == old(self).ledger@
                &&& d matches Disposition::Kept { index }
                &&& index == old(self).primary@.len()
            },
    {
        let ghost before = self.consumed@;
        proof {
            lemma_counts_cover(before);
        }
        if r.status {
            self.ok_count = self.ok_count + 1;
        } else {
            self.error_count = self.error_count + 1;
        }
        let d;
        if our_side_failure(&r) {
            let host = text_before(r.hostname.as_str(), ':');
            let copy = host.clone();
            self.ledger.push(host);
            d = Disposition::Diverted { host: copy };
        } else {
            let index = self.primary.len();
            self.primary.push(r.clone());
            d = Disposition::Kept { index };
        }
        self.consumed = Ghost(before.push(r));
        proof {
            let after = before.push(r);
            reveal(Seq::filter);
            assert(after.drop_last() == before);
            let f = |x: Response| is_our_side(x);
            let g = |x: Response| before_first(x.hostname@, ':');
            let h = |x: String| x@;
            if is_our_side(r) {
                assert(after.filter(f) == before.filter(f).push(r));
                assert(after.filter(f).map_values(g) =~= before.filter(f).map_values(g).push(g(r)));
                assert(self.ledger@ == old(self).ledger@.push(self.ledger@.last()));
                assert(self.ledger@.map_values(h) =~= old(self).ledger@.map_values(h).push(
                    self.ledger@.last()@,
                ));
            } else {
                assert(after.filter(f) == before.filter(f));
            }
            assert(self.ledger@.map_values(h) =~= diverted_hosts(after));
        }
        d
    }
}

/// The text written for record number `index` of the primary document, where
/// `record` is the record's own text.
pub fn frame_record(index: usize, record: &str) -> (r: String)
    ensures
        index == 0 ==> r@ == record@,
        index > 0 ==> r@ == RECORD_SEPARATOR@ + record@,
{
    if index == 0 {
        record.to_string()
    } else {
        let s = String::from_str(RECORD_SEPARATOR);
        s.concat(record)
    }
}

} // verus!

verus! {

/// The records' texts joined by the separator.
pub open spec fn joined(texts: Seq<Seq<char>>) -> Seq<char>
    decreases texts.len(),
{
    if texts.len() == 0 {
        Seq::empty()
    } else if texts.len() == 1 {
        texts[0]
    } else {
        joined(texts.drop_last()) + RECORD_SEPARATOR@ + texts.last()
    }
}

/// The complete primary document holding these records' texts.
pub open spec fn document(texts: Seq<Seq<char>>) -> Seq<char> {
    DOCUMENT_OPEN@ + joined(texts) + DOCUMENT_CLOSE@
}

/// The complete primary document for the records' texts: what the incremental
/// writes add up to once the run ends normally.
pub fn frame_document(records: &Vec<String>) -> (r: String)
    ensures
        r@ == document(records@.map_values(|t: String| t@)),
{
    let ghost texts = records@.map_values(|t: String| t@);
    let mut doc = String::from_str(DOCUMENT_OPEN);
    let mut i: usize = 0;
    while i < records.len()
        invariant
            i <= records@.len(),
            texts == records@.map_values(|t: String| t@),
            doc@ == DOCUMENT_OPEN@ + joined(texts.take(i as int)),
        decreases records@.len() - i,
    {
        let chunk = frame_record(i, records[i].as_str());
        doc.append(chunk.as_str());
        proof {
            let t = texts.take(i + 1);
            assert(t.drop_last() =~= texts.take(i as int));
            assert(t.last() == records@[i as int]@);
            if i == 0 {
                assert(texts.take(0) =~= Seq::<Seq<char>>::empty());
                assert(doc@ =~= DOCUMENT_OPEN@ + joined(t));
            } else {
                assert(doc@ =~= DOCUMENT_OPEN@ + joined(t));
            }
        }
        i = i + 1;
    }
    doc.append(DOCUMENT_CLOSE);
    assert(texts.take(records@.len() as int) =~= texts);
    doc
}

/// What the sink holds after any stream of outcomes: the primary document's
/// records are the outcomes not diverted, in arrival order and unchanged; the
/// ledger holds the bare hostnames of the diverted ones; and every outcome
/// was counted once, as a success or as a failure.
pub proof fn lemma_sink_contents(s: ResultSink)
    requires
        s.wf(),
    ensures
        s.primary@ == kept(s.consumed()),
        s.ledger_view() == diverted_hosts(s.consumed()),
        s.ok_count == successes(s.consumed()),
        s.error_count == failures(s.consumed()),
        s.ok_count + s.error_count == s.consumed().len(),
{
    lemma_counts_cover(s.consumed());
}

} // verus!
