//! The consumer's batching of documents read from Kafka before they are sent to Meilisearch.
use vstd::prelude::*;

verus! {

/// The compact JSON text (`serde_json::to_vec`) of the document that
/// `serde_json::from_slice::<serde_json::Value>` reads from the bytes; `None` when it rejects
/// them.
pub uninterp spec fn json_normal_form(bytes: Seq<u8>) -> Option<Seq<u8>>;

/// Parses the bytes with `serde_json::from_slice::<serde_json::Value>` and writes the parsed
/// document back with `serde_json::to_vec`, which cannot fail for a `Value`; `None` when the
/// parse fails.
#[verifier::external_body]
fn normalize_json(bytes: &[u8]) -> (r: Option<Vec<u8>>)
    ensures
        json_normal_form(bytes@) == match r {
            Some(v) => Some(v@),
            None => None,
        },
{
    match serde_json::from_slice::<serde_json::Value>(bytes) {
        Ok(doc) => serde_json::to_vec(&doc).ok(),
        Err(_) => None,
    }
}

/// The documents joined by commas.
pub open spec fn comma_joined(docs: Seq<Seq<u8>>) -> Seq<u8>
    decreases docs.len(),
{
    if docs.len() == 0 {
        Seq::empty()
    } else if docs.len() == 1 {
        docs[0]
    } else {
        comma_joined(docs.drop_last()) + seq![0x2cu8] + docs.last()
    }
}

/// Joining one more document adds a comma and that document after the ones already joined, so
/// every document is joined, in order; a single document is joined as itself.
pub proof fn lemma_comma_joined_push(docs: Seq<Seq<u8>>, d: Seq<u8>)
    ensures
        comma_joined(Seq::<Seq<u8>>::empty()) == Seq::<u8>::empty(),
        comma_joined(seq![d]) == d,
        docs.len() > 0 ==> comma_joined(docs.push(d)) == comma_joined(docs) + seq![0x2cu8] + d,
{
    assert(docs.push(d).drop_last() =~= docs);
}

/// Joining two non-empty runs of documents is joining each and putting a comma between them.
pub proof fn lemma_comma_joined_concat(a: Seq<Seq<u8>>, b: Seq<Seq<u8>>)
    requires
        a.len() > 0,
        b.len() > 0,
    ensures
        comma_joined(a + b) == comma_joined(a) + seq![0x2cu8] + comma_joined(b),
    decreases b.len(),
{
    if b.len() == 1 {
        lemma_comma_joined_push(a, b[0]);
        assert(a + b =~= a.push(b[0]));
    } else {
        let c = b.drop_last();
        let d = b.last();
        lemma_comma_joined_concat(a, c);
        lemma_comma_joined_push(a + c, d);
        lemma_comma_joined_push(c, d);
        assert(a + b =~= (a + c).push(d));
        assert(b =~= c.push(d));
    }
}

/// The number of bytes of all the documents together.
pub open spec fn total_len(docs: Seq<Seq<u8>>) -> int
    decreases docs.len(),
{
    if docs.len() == 0 {
        0
    } else {
        total_len(docs.drop_last()) + docs.last().len()
    }
}

/// Joined documents are as long as all of them together plus one comma between each two, so no
/// document is left out.
pub proof fn lemma_comma_joined_len(docs: Seq<Seq<u8>>)
    ensures
        docs.len() > 0 ==> comma_joined(docs).len() == total_len(docs) + docs.len() - 1,
    decreases docs.len(),
{
    if docs.len() > 1 {
        lemma_comma_joined_len(docs.drop_last());
    } else if docs.len() == 1 {
        assert(docs.drop_last() =~= Seq::<Seq<u8>>::empty());
        assert(total_len(docs.drop_last()) == 0);
    }
}

/// The JSON array of the documents: `[`, the documents joined by commas, `]`.
pub open spec fn json_array(docs: Seq<Seq<u8>>) -> Seq<u8> {
    seq![0x5bu8] + comma_joined(docs) + seq![0x5du8]
}

/// What became of a received payload.
pub enum Accepted {
    /// The record had no payload.
    Ignored,
    /// The payload is not a JSON document; it is dropped.
    Rejected,
    /// The document was added and the batch has room left.
    Buffered,
    /// The document was added and the batch is due to be flushed.
    Full,
}

/// The documents waiting to be indexed.
pub struct DocumentBatch {
    documents: Vec<Vec<u8>>,
    batch_size: usize,
}

impl DocumentBatch {
    /// The documents waiting, oldest first, each in its compact JSON form.
    pub closed spec fn pending(&self) -> Seq<Seq<u8>> {
        self.documents@.map_values(|d: Vec<u8>| d@)
    }

    /// The number of documents that makes a batch due.
    pub closed spec fn size(&self) -> nat {
        self.batch_size as nat
    }

    /// An empty batch that is due once it holds `batch_size` documents.
    pub fn new(batch_size: usize) -> (b: DocumentBatch)
        ensures
            b.pending() == Seq::<Seq<u8>>::empty(),
            b.size() == batch_size,
    {
        let b = DocumentBatch { documents: Vec::new(), batch_size };
        assert(b.pending() =~= Seq::<Seq<u8>>::empty());
        b
    }

    /// Number of documents waiting.
    pub fn len(&self) -> (n: usize)
        ensures
            n == self.pending().len(),
    {
        self.documents.len()
    }

    /// Whether no document is waiting; a batch with documents is flushed when the consumer
    /// has been idle for the batch timeout.
    pub fn is_empty(&self) -> (r: bool)
        ensures
            r == (self.pending().len() == 0),
    {
        self.documents.len() == 0
    }

    /// Takes a received payload: no payload is ignored, a payload that is not JSON is dropped,
    /// and a JSON document is added in its compact form; the batch is due once it holds
    /// `batch_size` documents.
    pub fn accept(&mut self, payload: Option<&[u8]>) -> (a: Accepted)
        ensures
            final(self).size() == old(self).size(),
            payload is None ==> a is Ignored && final(self).pending() == old(self).pending(),
            payload matches Some(p) ==> (json_normal_form(p@) is None ==> a is Rejected
                && final(self).pending() == old(self).pending()),
            payload matches Some(p) ==> (json_normal_form(p@) matches Some(doc)
                ==> final(self).pending() == old(self).pending().push(doc)
                && (a is Full <==> final(self).pending().len() >= final(self).size())
                && (a is Buffered <==> final(self).pending().len() < final(self).size())),
    {
        match payload {
            None => Accepted::Ignored,
            Some(p) => {
                match normalize_json(p) {
                    None => Accepted::Rejected,
                    Some(doc) => {
                        let ghost before = self.pending();
                        let ghost text = doc@;
                        self.documents.push(doc);
                        assert(self.documents@.map_values(|d: Vec<u8>| d@) =~= before.push(text));
                        if self.documents.len() >= self.batch_size {
                            Accepted::Full
                        } else {
                            Accepted::Buffered
                        }
                    },
                }
            },
        }
    }

    /// The body of the request that indexes the batch: the compact JSON array of the documents,
    /// in the order in which they arrived (what `serde_json::to_vec` writes for the list of
    /// parsed documents).
    pub fn request_body(&self) -> (body: Vec<u8>)
        ensures
            body@ == json_array(self.pending()),
            self.pending().len() > 0 ==> body@.len() == total_len(self.pending()) + self.pending().len()
                + 1,
    {
        proof {
            lemma_comma_joined_len(self.pending());
        }
        let mut body: Vec<u8> = Vec::new();
        body.push(0x5bu8);
        let n = self.documents.len();
        let mut i: usize = 0;
        assert(self.pending().take(0) =~= Seq::<Seq<u8>>::empty());
        assert(body@ =~= seq![0x5bu8] + comma_joined(self.pending().take(0)));
        while i < n
            invariant
                n == self.documents@.len(),
                n == self.pending().len(),
                i <= n,
                body@ == seq![0x5bu8] + comma_joined(self.pending().take(i as int)),
            decreases n - i,
        {
            let ghost docs = self.pending();
            assert(docs[i as int] == self.documents@[i as int]@);
            assert(docs.take(i + 1).drop_last() =~= docs.take(i as int));
            if i > 0 {
                body.push(0x2cu8);
            }
            append_bytes(&mut body, &self.documents[i]);
            proof {
                if i == 0 {
                    assert(docs.take(1) =~= seq![docs[0]]);
                }
            }
            assert(body@ =~= seq![0x5bu8] + comma_joined(docs.take(i + 1)));
            i = i + 1;
        }
        assert(self.pending().take(n as int) =~= self.pending());
        body.push(0x5du8);
        assert(body@ =~= json_array(self.pending()));
        body
    }

    /// Empties the batch after it was indexed.
    pub fn clear(&mut self)
        ensures
            final(self).pending() == Seq::<Seq<u8>>::empty(),
            final(self).size() == old(self).size(),
    {
        self.documents = Vec::new();
        assert(self.pending() =~= Seq::<Seq<u8>>::empty());
    }
}

/// How long the consumer pauses after Kafka reported an error, in milliseconds.
pub const KAFKA_ERROR_PAUSE_MS: u64 = 1000;

/// What the consumer's wait for the next record came to.
pub enum ConsumerEvent<'a> {
    /// A record arrived, with its payload if it has one.
    Received(Option<&'a [u8]>),
    /// Kafka reported an error.
    ReceiveFailed,
    /// No record arrived within the batch timeout.
    TimedOut,
}

/// What the consumer does next.
pub enum ConsumerAction {
    /// Wait for the next record.
    Continue,
    /// Report that the payload was not JSON, then wait for the next record.
    ReportInvalid,
    /// Index the pending documents, clear the batch and commit the consumer's offsets.
    FlushAndCommit,
    /// Pause for this many milliseconds, then wait for the next record.
    Pause { ms: u64 },
}

impl DocumentBatch {
    /// One turn of the consumer's loop: a received record goes through `accept` and a full batch
    /// is flushed; after a Kafka error the consumer pauses for a second; when the wait timed out,
    /// the documents waiting, if any, are flushed.
    pub fn step(&mut self, event: ConsumerEvent) -> (action: ConsumerAction)
        ensures
            final(self).size() == old(self).size(),
            event matches ConsumerEvent::Received(None) ==> action is Continue
                && final(self).pending() == old(self).pending(),
            event matches ConsumerEvent::Received(Some(p)) ==> (json_normal_form(p@) is None
                ==> action is ReportInvalid && final(self).pending() == old(self).pending()),
            event matches ConsumerEvent::Received(Some(p)) ==> (json_normal_form(p@) matches Some(
                doc,
            ) ==> final(self).pending() == old(self).pending().push(doc) && (action is FlushAndCommit
                <==> final(self).pending().len() >= final(self).size()) && (action is Continue
                <==> final(self).pending().len() < final(self).size())),
            event is ReceiveFailed ==> action == (ConsumerAction::Pause { ms: KAFKA_ERROR_PAUSE_MS })
                && final(self).pending() == old(self).pending(),
            event is TimedOut ==> final(self).pending() == old(self).pending() && (
            action is FlushAndCommit <==> old(self).pending().len() > 0) && (action is Continue
                <==> old(self).pending().len() == 0),
    {
        match event {
            ConsumerEvent::Received(payload) => match self.accept(payload) {
                Accepted::Full => ConsumerAction::FlushAndCommit,
                Accepted::Rejected => ConsumerAction::ReportInvalid,
                Accepted::Buffered => ConsumerAction::Continue,
                Accepted::Ignored => ConsumerAction::Continue,
            },
            ConsumerEvent::ReceiveFailed => ConsumerAction::Pause { ms: KAFKA_ERROR_PAUSE_MS },
            ConsumerEvent::TimedOut => {
                if self.is_empty() {
                    ConsumerAction::Continue
                } else {
                    ConsumerAction::FlushAndCommit
                }
            },
        }
    }
}

fn append_bytes(out: &mut Vec<u8>, bytes: &Vec<u8>)
    ensures
        final(out)@ == old(out)@ + bytes@,
{
    let n = bytes.len();
    let mut i: usize = 0;
    let ghost start = out@;
    while i < n
        invariant
            n == bytes@.len(),
            i <= n,
            out@ == start + bytes@.take(i as int),
        decreases n - i,
    {
        out.push(bytes[i]);
        assert(out@ =~= start + bytes@.take(i + 1));
        i = i + 1;
    }
    assert(bytes@.take(n as int) =~= bytes@);
}

/// Whether `c` has the Unicode `White_Space` property, which is what `char::is_whitespace` and
/// `str::trim` test.
pub open spec fn is_white_space(c: char) -> bool {
    let n = c as u32;
    ||| 0x09 <= n <= 0x0d
    ||| n == 0x20
    ||| n == 0x85
    ||| n == 0xa0
    ||| n == 0x1680
    ||| 0x2000 <= n <= 0x200a
    ||| n == 0x2028
    ||| n == 0x2029
    ||| n == 0x202f
    ||| n == 0x205f
    ||| n == 0x3000
}

/// The line holds nothing but white space.
pub open spec fn blank(line: Seq<char>) -> bool {
    forall|i: int| 0 <= i < line.len() ==> is_white_space(#[trigger] line[i])
}

/// Whether `c` has the Unicode `White_Space` property.
fn white_space_char(c: char) -> (r: bool)
    ensures
        r == is_white_space(c),
{
    let n = c as u32;
    (0x09 <= n && n <= 0x0d) || n == 0x20 || n == 0x85 || n == 0xa0 || n == 0x1680 || (0x2000
        <= n && n <= 0x200a) || n == 0x2028 || n == 0x2029 || n == 0x202f || n == 0x205f || n
        == 0x3000
}

/// Whether the line holds nothing but white space, which is when `str::trim` leaves nothing of
/// it.
fn is_blank(line: &str) -> (r: bool)
    ensures
        r == blank(line@),
{
    let len = line.unicode_len();
    let mut i: usize = 0;
    while i < len
        invariant
            len == line@.len(),
            i <= len,
            forall|j: int| 0 <= j < i ==> is_white_space(#[trigger] line@[j]),
        decreases len - i,
    {
        if !white_space_char(line.get_char(i)) {
            return false;
        }
        i = i + 1;
    }
    true
}

/// What `serde_json::from_str::<serde_json::Value>` makes of the line, followed by
/// `doc[field].as_str()`: `None` when the line is not JSON, `Some(None)` when the document has no
/// string under that field, `Some(Some(s))` otherwise.
pub uninterp spec fn line_string_field(line: Seq<char>, field: Seq<char>) -> Option<Option<Seq<char>>>;

/// Parses the line with `serde_json::from_str::<serde_json::Value>` and reads the named field of
/// the document with `doc[field].as_str()`; indexing a value that is not an object, or an object
/// without that field, gives `Null`, whose `as_str` is `None`.
#[verifier::external_body]
fn parse_string_field(line: &str, field: &str) -> (r: Option<Option<String>>)
    ensures
        r.deep_view() == line_string_field(line@, field@),
{
    match serde_json::from_str::<serde_json::Value>(line) {
        Ok(doc) => match doc[field].as_str() {
            Some(s) => Some(Some(s.to_owned())),
            None => Some(None),
        },
        Err(_) => None,
    }
}

/// What the producer does with one input line.
pub enum ProducerLine {
    /// The line is blank: skip it.
    Skip,
    /// The line is not a JSON document: stop with its parse error.
    Invalid,
    /// Send the line under this key.
    Send { key: String },
}

/// Decides what to do with one input line: blank lines are skipped, lines that are not JSON
/// stop the producer, and a document is sent under its string `id`, or under `unknown` when it
/// has none.
pub fn producer_line(line: &str) -> (r: ProducerLine)
    ensures
        blank(line@) ==> r is Skip,
        !blank(line@) && line_string_field(line@, "id"@) is None ==> r is Invalid,
        !blank(line@) ==> (line_string_field(line@, "id"@) matches Some(id) ==> (r matches ProducerLine::Send {
            key,
        } && key@ == match id {
            Some(s) => s,
            None => "unknown"@,
        })),
{
    if is_blank(line) {
        return ProducerLine::Skip;
    }
    match parse_string_field(line, "id") {
        None => ProducerLine::Invalid,
        Some(id) => {
            let key = match id {
                Some(s) => document_key(Some(s.as_str())),
                None => document_key(None),
            };
            ProducerLine::Send { key }
        },
    }
}

/// The key under which the producer sends a document: its `id` field when that is a string,
/// `unknown` otherwise.
pub fn document_key(id: Option<&str>) -> (k: String)
    ensures
        id matches Some(s) ==> k@ == s@,
        id is None ==> k@ == "unknown"@,
{
    match id {
        Some(s) => s.to_owned(),
        None => "unknown".to_owned(),
    }
}

} // verus!
