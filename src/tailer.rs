use vstd::prelude::*;

verus! {

pub const NEWLINE: u8 = 10;

/// One line of the helper's log, stamped when the tailer read it.
pub struct EventRecord {
    pub observed_at_ms: u64,
    pub line: Vec<u8>,
}

/// A byte range of the log to read next.
#[derive(Clone, Copy, Debug, PartialEq, Eq, Structural)]
pub struct ReadSpan {
    pub start: u64,
    pub len: u64,
}

/// The lines of `records` written back out, each followed by a newline.
pub open spec fn joined(records: Seq<EventRecord>) -> Seq<u8>
    decreases records.len(),
{
    if records.len() == 0 {
        Seq::empty()
    } else {
        joined(records.drop_last()) + records.last().line@.push(NEWLINE)
    }
}

pub open spec fn has_no_newline(s: Seq<u8>) -> bool {
    forall|i: int| 0 <= i < s.len() ==> s[i] != NEWLINE
}

/// What to read when the tailer has consumed `offset` bytes and the log is
/// `file_len` bytes long (`None`: it does not exist yet): the bytes past the
/// offset, if the log has grown beyond it.
pub open spec fn span_to_read(offset: nat, file_len: Option<u64>) -> Option<ReadSpan> {
    match file_len {
        Some(l) => if l > offset {
            Some(ReadSpan { start: offset as u64, len: (l - offset) as u64 })
        } else {
            None
        },
        None => None,
    }
}

/// Follows an append-only log by byte offset: each poll reads only what was
/// appended since the last one, and the bytes are cut into lines; a line
/// whose newline has not arrived yet waits for the next poll.
pub struct EventTailer {
    offset: u64,
    pending: Vec<u8>,
    records: Vec<EventRecord>,
    consumed: Ghost<Seq<u8>>,
}

impl EventTailer {
    /// Every byte read so far, in file order.
    pub closed spec fn consumed(&self) -> Seq<u8> {
        self.consumed@
    }

    pub closed spec fn offset_spec(&self) -> nat {
        self.offset as nat
    }

    pub closed spec fn records_spec(&self) -> Seq<EventRecord> {
        self.records@
    }

    /// The bytes of the last, unfinished line.
    pub closed spec fn pending_spec(&self) -> Seq<u8> {
        self.pending@
    }

    pub closed spec fn wf(&self) -> bool {
        &&& self.consumed@.len() == self.offset
        &&& joined(self.records@) + self.pending@ == self.consumed@
        &&& has_no_newline(self.pending@)
        &&& forall|k: int|
            0 <= k < self.records@.len() ==> has_no_newline(#[trigger] self.records@[k].line@)
    }

    /// What holds of every well-formed tailer: the records and the pending
    /// bytes are exactly what was read, cut at each newline.
    pub proof fn lemma_wf(&self)
        requires
            self.wf(),
        ensures
            self.consumed().len() == self.offset_spec(),
            joined(self.records_spec()) + self.pending_spec() == self.consumed(),
            has_no_newline(self.pending_spec()),
            forall|k: int|
                0 <= k < self.records_spec().len() ==> has_no_newline(
                    #[trigger] self.records_spec()[k].line@,
                ),
    {
    }

    /// A tailer at the start of a log, with nothing read.
    pub fn new() -> (r: Self)
        ensures
            r.wf(),
            r.offset_spec() == 0,
            r.consumed() == Seq::<u8>::empty(),
            r.records_spec() == Seq::<EventRecord>::empty(),
            r.pending_spec() == Seq::<u8>::empty(),
    {
        let r = EventTailer {
            offset: 0,
            pending: Vec::new(),
            records: Vec::new(),
            consumed: Ghost(Seq::empty()),
        };
        proof {
            assert(joined(r.records@) + r.pending@ =~= Seq::<u8>::empty());
        }
        r
    }

    pub fn offset(&self) -> (r: u64)
        ensures
            r == self.offset_spec(),
    {
        self.offset
    }

    pub fn records(&self) -> (r: &Vec<EventRecord>)
        ensures
            r@ == self.records_spec(),
    {
        &self.records
    }

    pub fn pending(&self) -> (r: &Vec<u8>)
        ensures
            r@ == self.pending_spec(),
    {
        &self.pending
    }

    /// The poll decision, from the log's current length: a missing log, or
    /// one that has not grown past what was read, gives nothing to read.
    pub fn plan(&self, file_len: Option<u64>) -> (r: Option<ReadSpan>)
        ensures
            r == span_to_read(self.offset_spec(), file_len),
    {
        match file_len {
            Some(l) => if l > self.offset {
                Some(ReadSpan { start: self.offset, len: l - self.offset })
            } else {
                None
            },
            None => None,
        }
    }

    /// Takes in the bytes read past the offset, stamping each line that they
    /// complete with `observed_at_ms`.
    pub fn absorb(&mut self, delta: &Vec<u8>, observed_at_ms: u64)
        requires
            old(self).wf(),
            old(self).offset_spec() + delta@.len() <= u64::MAX,
        ensures
            final(self).wf(),
            final(self).consumed() == old(self).consumed() + delta@,
            final(self).offset_spec() == old(self).offset_spec() + delta@.len(),
            final(self).records_spec().len() >= old(self).records_spec().len(),
            final(self).records_spec().subrange(0, old(self).records_spec().len() as int)
                == old(self).records_spec(),
            forall|k: int|
                old(self).records_spec().len() <= k < final(self).records_spec().len()
                    ==> #[trigger] final(self).records_spec()[k].observed_at_ms == observed_at_ms,
    {
        let ghost start_consumed = self.consumed@;
        let ghost start_records = self.records@;
        let mut i: usize = 0;
        while i < delta.len()
            invariant
                i <= delta@.len(),
                self.consumed@ == start_consumed,
                self.offset == old(self).offset,
                joined(self.records@) + self.pending@ == start_consumed + delta@.take(i as int),
                has_no_newline(self.pending@),
                forall|k: int|
                    0 <= k < self.records@.len() ==> has_no_newline(
                        #[trigger] self.records@[k].line@,
                    ),
                self.records@.len() >= start_records.len(),
                self.records@.subrange(0, start_records.len() as int) == start_records,
                forall|k: int|
                    start_records.len() <= k < self.records@.len()
                        ==> #[trigger] self.records@[k].observed_at_ms == observed_at_ms,
            decreases delta@.len() - i,
        {
            let b = delta[i];
            let ghost prev_records = self.records@;
            let ghost prev_pending = self.pending@;
            if b == NEWLINE {
                let mut line: Vec<u8> = Vec::new();
                std::mem::swap(&mut line, &mut self.pending);
                self.records.push(EventRecord { observed_at_ms, line });
                proof {
                    assert(self.records@.drop_last() =~= prev_records);
                    assert(self.records@.last().line@ == prev_pending);
                    assert(self.pending@ =~= Seq::<u8>::empty());
                    assert(joined(self.records@) == joined(prev_records) + prev_pending.push(
                        NEWLINE,
                    ));
                    assert(joined(prev_records) + prev_pending.push(NEWLINE) =~= (joined(
                        prev_records,
                    ) + prev_pending).push(b));
                    assert(delta@.take(i + 1) =~= delta@.take(i as int).push(b));
                    assert(joined(self.records@) + self.pending@ =~= start_consumed + delta@.take(
                        i + 1,
                    ));
                    assert(self.records@.subrange(0, start_records.len() as int)
                        =~= prev_records.subrange(0, start_records.len() as int));
                }
            } else {
                self.pending.push(b);
                proof {
                    assert(delta@.take(i + 1) =~= delta@.take(i as int).push(b));
                    assert(joined(self.records@) + self.pending@ =~= (joined(self.records@)
                        + prev_pending).push(b));
                }
            }
            i = i + 1;
        }
        proof {
            assert(delta@.take(i as int) =~= delta@);
        }
        self.offset = self.offset + delta.len() as u64;
        self.consumed = Ghost(start_consumed + delta@);
    }
}

/// The bytes that a run of polls reads from a log whose final content is
/// `file`, when the polls see the lengths `lens` in turn, together with the
/// offset reached.
pub open spec fn tail_run(file: Seq<u8>, lens: Seq<u64>) -> (Seq<u8>, nat)
    decreases lens.len(),
{
    if lens.len() == 0 {
        (Seq::empty(), 0)
    } else {
        let (bytes, offset) = tail_run(file, lens.drop_last());
        match span_to_read(offset, Some(lens.last())) {
            Some(span) => (
                bytes + file.subrange(span.start as int, span.start + span.len),
                (span.start + span.len) as nat,
            ),
            None => (bytes, offset),
        }
    }
}

/// Reading a growing log poll by poll loses and repeats nothing: whatever
/// lengths the polls happen to see (each no more than the final length, as
/// the log only grows), the bytes read are exactly the log's first bytes, up
/// to the largest length seen. When the last poll sees the whole log, they
/// are the whole log.
pub proof fn lemma_tail_run_reassembles(file: Seq<u8>, lens: Seq<u64>)
    requires
        forall|i: int| 0 <= i < lens.len() ==> lens[i] <= file.len(),
    ensures
        tail_run(file, lens).1 <= file.len(),
        tail_run(file, lens).0 == file.subrange(0, tail_run(file, lens).1 as int),
        forall|i: int| 0 <= i < lens.len() ==> lens[i] <= tail_run(file, lens).1,
        lens.len() > 0 && lens.last() == file.len() ==> tail_run(file, lens).0 == file,
    decreases lens.len(),
{
    if lens.len() > 0 {
        let prefix = lens.drop_last();
        lemma_tail_run_reassembles(file, prefix);
        let (bytes, offset) = tail_run(file, prefix);
        assert(forall|i: int| 0 <= i < prefix.len() ==> prefix[i] == lens[i]);
        if lens.last() > offset {
            assert(file.subrange(0, offset as int) + file.subrange(offset as int, lens.last() as int)
                =~= file.subrange(0, lens.last() as int));
        }
        if lens.last() == file.len() {
            assert(file.subrange(0, file.len() as int) =~= file);
        }
    }
}

/// One poll keeps a tailer in step with the log: when it has read the log's
/// first `offset` bytes and takes in the span that [`EventTailer::plan`]
/// names, it has read the log's first bytes up to the length seen.
pub proof fn lemma_poll_keeps_prefix(file: Seq<u8>, consumed: Seq<u8>, file_len: u64)
    requires
        file_len <= file.len(),
        consumed == file.subrange(0, consumed.len() as int),
        consumed.len() <= u64::MAX,
    ensures
        match span_to_read(consumed.len(), Some(file_len)) {
            Some(span) => consumed + file.subrange(span.start as int, span.start + span.len)
                == file.subrange(0, file_len as int),
            None => consumed == file.subrange(0, consumed.len() as int),
        },
{
    if file_len > consumed.len() {
        assert(consumed + file.subrange(consumed.len() as int, file_len as int) =~= file.subrange(
            0,
            file_len as int,
        ));
    }
}

} // verus!
