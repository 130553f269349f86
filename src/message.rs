//! Plain-value model of the DNS messages this responder reads and writes.
use vstd::prelude::*;

verus! {

/// Record type code of an IPv4 address record.
pub const TYPE_A: u16 = 1;

/// Record type code of a name server record.
pub const TYPE_NS: u16 = 2;

/// Record type code of a canonical name record.
pub const TYPE_CNAME: u16 = 5;

/// Record type code of a placeholder record with no data.
pub const TYPE_NULL: u16 = 10;

/// Record type code of a mail exchange record.
pub const TYPE_MX: u16 = 15;

/// Record type code of an IPv6 address record.
pub const TYPE_AAAA: u16 = 28;

/// The Internet class.
pub const CLASS_IN: u16 = 1;

/// A domain name as its labels, most specific first, each label its raw
/// bytes (`www`, `example`, `org`); the root is the empty list.
pub type DomainName = Vec<Vec<u8>>;

pub open spec fn name_view(n: DomainName) -> Seq<Seq<u8>> {
    n@.map_values(|l: Vec<u8>| l@)
}

/// The length of a name as the message library counts it: one byte for each
/// label's length prefix plus the label bytes.
pub open spec fn name_len(labels: Seq<Seq<u8>>) -> int
    decreases labels.len(),
{
    if labels.len() == 0 {
        0
    } else {
        name_len(labels.drop_last()) + 1 + labels.last().len()
    }
}

/// Every label of a name has 1 to 63 bytes.
pub open spec fn labels_in_range(labels: Seq<Seq<u8>>) -> bool {
    forall|i: int| 0 <= i < labels.len() ==> 1 <= #[trigger] labels[i].len() <= 63
}

/// A name that DNS can carry: every label of 1 to 63 bytes, and at most 254
/// bytes in all, so that with its terminating zero byte it is written in at
/// most 255.
pub open spec fn valid_name(labels: Seq<Seq<u8>>) -> bool {
    labels_in_range(labels) && name_len(labels) <= 254
}

proof fn lemma_name_len_step(labels: Seq<Seq<u8>>, i: int)
    requires
        0 <= i < labels.len(),
    ensures
        name_len(labels.subrange(0, i + 1)) == name_len(labels.subrange(0, i)) + 1
            + labels[i].len(),
{
    assert(labels.subrange(0, i + 1).drop_last() =~= labels.subrange(0, i));
}

proof fn lemma_name_len_grows(labels: Seq<Seq<u8>>, i: int)
    requires
        0 <= i <= labels.len(),
    ensures
        name_len(labels.subrange(0, i)) <= name_len(labels),
    decreases labels.len() - i,
{
    if i < labels.len() {
        lemma_name_len_step(labels, i);
        lemma_name_len_grows(labels, i + 1);
    } else {
        assert(labels.subrange(0, i) =~= labels);
    }
}

/// Whether a name can be carried: labels of 1 to 63 bytes, 254 bytes in all.
pub fn name_fits(n: &DomainName) -> (r: bool)
    ensures
        r == valid_name(name_view(*n)),
{
    let ghost v = name_view(*n);
    let mut total: usize = 0;
    let mut i: usize = 0;
    while i < n.len()
        invariant
            v == name_view(*n),
            i <= n@.len(),
            total == name_len(v.subrange(0, i as int)),
            total <= 254,
            forall|k: int| 0 <= k < i ==> 1 <= #[trigger] v[k].len() <= 63,
        decreases n@.len() - i,
    {
        let len = n[i].len();
        proof {
            lemma_name_len_step(v, i as int);
        }
        if len == 0 || len > 63 || total + 1 + len > 254 {
            proof {
                if len != 0 && len <= 63 {
                    lemma_name_len_grows(v, i as int + 1);
                }
                assert(v[i as int].len() == len);
            }
            return false;
        }
        assert(v[i as int].len() == len);
        total = total + 1 + len;
        i += 1;
    }
    assert(v.subrange(0, i as int) =~= v);
    true
}

/// The classes that DNS defines for questions: IN, CH, HS, NONE and ANY.
pub open spec fn known_class(c: u16) -> bool {
    c == 1 || c == 3 || c == 4 || c == 254 || c == 255
}

/// Copies a name label by label.
pub fn copy_name(n: &DomainName) -> (r: DomainName)
    ensures
        name_view(r) == name_view(*n),
{
    let mut r: DomainName = Vec::new();
    let mut i: usize = 0;
    while i < n.len()
        invariant
            i <= n@.len(),
            r@.len() == i,
            forall|j: int| 0 <= j < i ==> #[trigger] r@[j]@ == n@[j]@,
        decreases n@.len() - i,
    {
        let mut label: Vec<u8> = Vec::new();
        let mut k: usize = 0;
        while k < n[i].len()
            invariant
                i < n@.len(),
                k <= n@[i as int]@.len(),
                label@ == n@[i as int]@.subrange(0, k as int),
            decreases n@[i as int]@.len() - k,
        {
            label.push(n[i][k]);
            k += 1;
        }
        assert(label@ =~= n@[i as int]@);
        r.push(label);
        i += 1;
    }
    assert(name_view(r) =~= name_view(*n));
    r
}

/// One entry of a message's question section.
pub struct Question {
    pub name: DomainName,
    pub qtype: u16,
    pub qclass: u16,
}

pub ghost struct QuestionView {
    pub name: Seq<Seq<u8>>,
    pub qtype: u16,
    pub qclass: u16,
}

impl View for Question {
    type V = QuestionView;

    open spec fn view(&self) -> QuestionView {
        QuestionView { name: name_view(self.name), qtype: self.qtype, qclass: self.qclass }
    }
}

/// A question that can be written: a valid name and a known class.
pub open spec fn valid_question(q: QuestionView) -> bool {
    valid_name(q.name) && known_class(q.qclass)
}

impl Question {
    pub fn copy(&self) -> (r: Question)
        ensures
            r@ == self@,
    {
        Question { name: copy_name(&self.name), qtype: self.qtype, qclass: self.qclass }
    }
}

/// The data carried by an answer record.
pub enum AnswerData {
    /// An IPv4 address, most significant octet first.
    A([u8; 4]),
    /// An IPv6 address as eight 16-bit groups, most significant first.
    Aaaa([u16; 8]),
    /// A canonical name.
    Cname(DomainName),
    /// A mail exchange: preference and exchange host name.
    Mx(u16, DomainName),
    /// A name server host name.
    Ns(DomainName),
    /// A placeholder with no data.
    Null,
}

pub ghost enum AnswerDataView {
    A(Seq<u8>),
    Aaaa(Seq<u16>),
    Cname(Seq<Seq<u8>>),
    Mx(u16, Seq<Seq<u8>>),
    Ns(Seq<Seq<u8>>),
    Null,
}

impl View for AnswerData {
    type V = AnswerDataView;

    open spec fn view(&self) -> AnswerDataView {
        match self {
            AnswerData::A(a) => AnswerDataView::A(a@),
            AnswerData::Aaaa(a) => AnswerDataView::Aaaa(a@),
            AnswerData::Cname(n) => AnswerDataView::Cname(name_view(*n)),
            AnswerData::Mx(p, n) => AnswerDataView::Mx(*p, name_view(*n)),
            AnswerData::Ns(n) => AnswerDataView::Ns(name_view(*n)),
            AnswerData::Null => AnswerDataView::Null,
        }
    }
}

/// The record type code that goes with each kind of record data.
pub open spec fn type_of_data(d: AnswerDataView) -> u16 {
    match d {
        AnswerDataView::A(_) => TYPE_A,
        AnswerDataView::Aaaa(_) => TYPE_AAAA,
        AnswerDataView::Cname(_) => TYPE_CNAME,
        AnswerDataView::Mx(_, _) => TYPE_MX,
        AnswerDataView::Ns(_) => TYPE_NS,
        AnswerDataView::Null => TYPE_NULL,
    }
}

/// Whether a class code is one of the known classes.
pub fn is_known_class(c: u16) -> (r: bool)
    ensures
        r == known_class(c),
{
    c == 1 || c == 3 || c == 4 || c == 254 || c == 255
}

/// Whether every name inside the data is valid.
pub open spec fn valid_data(d: AnswerDataView) -> bool {
    match d {
        AnswerDataView::Cname(n) => valid_name(n),
        AnswerDataView::Mx(_, n) => valid_name(n),
        AnswerDataView::Ns(n) => valid_name(n),
        _ => true,
    }
}

impl AnswerData {
    /// Whether every name inside the data can be carried.
    pub fn fits(&self) -> (r: bool)
        ensures
            r == valid_data(self@),
    {
        match self {
            AnswerData::Cname(n) => name_fits(n),
            AnswerData::Mx(_, n) => name_fits(n),
            AnswerData::Ns(n) => name_fits(n),
            _ => true,
        }
    }

    /// The record type code of this data.
    pub fn record_type(&self) -> (r: u16)
        ensures
            r == type_of_data(self@),
    {
        match self {
            AnswerData::A(_) => TYPE_A,
            AnswerData::Aaaa(_) => TYPE_AAAA,
            AnswerData::Cname(_) => TYPE_CNAME,
            AnswerData::Mx(_, _) => TYPE_MX,
            AnswerData::Ns(_) => TYPE_NS,
            AnswerData::Null => TYPE_NULL,
        }
    }
}

/// One entry of a response's answer section. Its class is always IN and its
/// type is the one its data has.
pub struct AnswerRecord {
    pub name: DomainName,
    pub ttl: u32,
    pub data: AnswerData,
}

pub ghost struct AnswerView {
    pub name: Seq<Seq<u8>>,
    pub ttl: u32,
    pub data: AnswerDataView,
}

impl View for AnswerRecord {
    type V = AnswerView;

    open spec fn view(&self) -> AnswerView {
        AnswerView { name: name_view(self.name), ttl: self.ttl, data: self.data@ }
    }
}

/// An answer that can be written: its own name and the names in its data
/// are valid.
pub open spec fn valid_answer(a: AnswerView) -> bool {
    valid_name(a.name) && valid_data(a.data)
}

/// A decoded query: its transaction id and its question section.
pub struct QueryMessage {
    pub id: u16,
    pub questions: Vec<Question>,
}

pub ghost struct QueryView {
    pub id: u16,
    pub questions: Seq<QuestionView>,
}

/// Whether every question of a query can be written back.
pub open spec fn valid_query(m: QueryView) -> bool {
    forall|i: int| 0 <= i < m.questions.len() ==> valid_question(#[trigger] m.questions[i])
}

impl View for QueryMessage {
    type V = QueryView;

    open spec fn view(&self) -> QueryView {
        QueryView { id: self.id, questions: self.questions@.map_values(|q: Question| q@) }
    }
}

/// A response: its transaction id, the question it echoes and its answers.
/// Encoded, it always carries the response flag; its authority and
/// additional sections are empty.
pub struct ResponseMessage {
    pub id: u16,
    pub questions: Vec<Question>,
    pub answers: Vec<AnswerRecord>,
}

pub ghost struct ResponseView {
    pub id: u16,
    pub questions: Seq<QuestionView>,
    pub answers: Seq<AnswerView>,
}

impl View for ResponseMessage {
    type V = ResponseView;

    open spec fn view(&self) -> ResponseView {
        ResponseView {
            id: self.id,
            questions: self.questions@.map_values(|q: Question| q@),
            answers: self.answers@.map_values(|a: AnswerRecord| a@),
        }
    }
}

/// Whether every question and answer of a response can be written.
pub open spec fn valid_response(r: ResponseView) -> bool {
    &&& forall|i: int| 0 <= i < r.questions.len() ==> valid_question(#[trigger] r.questions[i])
    &&& forall|i: int| 0 <= i < r.answers.len() ==> valid_answer(#[trigger] r.answers[i])
}

} // verus!
