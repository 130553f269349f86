//! DNS wire format: decoding queries and encoding responses with
//! `trust_dns_proto`, and the bytes-in, bytes-out entry point.
use vstd::prelude::*;
use trust_dns_proto::error::ProtoError;
use trust_dns_proto::op::{Message, MessageType, Query};
use trust_dns_proto::rr::rdata::{A, AAAA, CNAME, MX, NS, NULL};
use trust_dns_proto::rr::{DNSClass, Name, RData, Record, RecordType};
use crate::message::{
    is_known_class, labels_in_range, name_fits, name_len, valid_answer,
    valid_query, valid_question, valid_response, AnswerData, AnswerDataView, DomainName,
    QueryMessage, QueryView, Question, ResponseMessage, ResponseView,
};
use crate::resolver::{
    lemma_response_depends_on_first_question, lemma_response_valid, respond, response_for,
};

verus! {

// The message library's types that the wrappers below take or return.
#[verifier::external_type_specification]
#[verifier::external_body]
pub struct ExProtoError(ProtoError);

#[verifier::external_type_specification]
#[verifier::external_body]
pub struct ExRData(RData);


/// Size of the fixed DNS message header, in bytes.
pub const HEADER_LEN: usize = 12;

/// Largest count that a header field can hold.
pub const MAX_SECTION_COUNT: usize = 0xffff;

/// Number of questions and answers that always fit in a message together.
/// With names of at most 254 bytes, a written name takes at most 255 bytes
/// with its terminator; a written question at most 259 bytes (name, type,
/// class); a written answer at most 522 (name, type, class, TTL and data
/// length, then at most 257 bytes of data); the encoder allows 65535 bytes.
pub const MAX_FITTING_ENTRIES: usize = 100;

/// The 16-bit big-endian value of two bytes.
pub open spec fn be_u16(hi: u8, lo: u8) -> int {
    hi as int * 256 + lo as int
}

/// The transaction id of a wire message.
pub open spec fn wire_id(b: Seq<u8>) -> int {
    be_u16(b[0], b[1])
}

/// Whether a wire message carries the response flag.
pub open spec fn wire_is_response(b: Seq<u8>) -> bool {
    b[2] >= 0x80
}

/// Whether a wire message carries the truncation flag.
pub open spec fn wire_is_truncated(b: Seq<u8>) -> bool {
    b[2] % 4 >= 2
}

/// The question count in a wire message's header.
pub open spec fn wire_question_count(b: Seq<u8>) -> int {
    be_u16(b[4], b[5])
}

/// The answer count in a wire message's header.
pub open spec fn wire_answer_count(b: Seq<u8>) -> int {
    be_u16(b[6], b[7])
}

/// The authority and additional counts in a wire message's header.
pub open spec fn wire_other_counts(b: Seq<u8>) -> (int, int) {
    (be_u16(b[8], b[9]), be_u16(b[10], b[11]))
}

/// What the header of an encoded message holds for these counts: the id,
/// the response flag, all the questions, all the answers unless the message
/// is marked truncated, and no authority or additional records.
pub open spec fn header_holds(b: Seq<u8>, id: int, questions: int, answers: int) -> bool {
    &&& b.len() >= HEADER_LEN
    &&& wire_id(b) == id
    &&& wire_is_response(b)
    &&& wire_question_count(b) == questions
    &&& wire_answer_count(b) <= answers
    &&& (wire_answer_count(b) == answers || wire_is_truncated(b))
    &&& wire_other_counts(b) == (0int, 0int)
}

/// What the header of an encoded response holds.
pub open spec fn response_header(b: Seq<u8>, r: ResponseView) -> bool {
    header_holds(b, r.id as int, r.questions.len() as int, r.answers.len() as int)
}

/// Why a query got no response.
#[derive(Debug, Clone, Copy, PartialEq, Eq, Structural)]
pub enum ResolveError {
    /// The bytes do not form a DNS message.
    Parse,
    /// The response could not be written in the wire format.
    Encode,
}

/// Whether `trust_dns_proto` decodes these bytes as a DNS message.
pub uninterp spec fn decodes(b: Seq<u8>) -> bool;

/// The query that `trust_dns_proto` decodes from these bytes.
pub uninterp spec fn decoded_query(b: Seq<u8>) -> QueryView;

/// Relies on `Message::from_vec`: it reads the 12-byte header first, the id
/// big-endian from bytes 0 and 1 and the question count from bytes 4 and 5,
/// then exactly that many questions. A question's name is read as labels of
/// 1 to 63 bytes of at most 255 bytes in all, and its class through
/// `DNSClass::from_u16`, which accepts only the known classes. Each question
/// is taken as its name's labels (`Name::iter`) and its type and class codes.
#[verifier::external_body]
fn decode_query(buf: &[u8]) -> (r: Result<QueryMessage, ProtoError>)
    ensures
        r is Ok <==> decodes(buf@),
        r is Ok ==> r->Ok_0@ == decoded_query(buf@),
        r is Ok ==> buf@.len() >= HEADER_LEN,
        r is Ok ==> r->Ok_0.id == wire_id(buf@),
        r is Ok ==> r->Ok_0.questions@.len() == wire_question_count(buf@),
        r is Ok ==> valid_query(r->Ok_0@),
{
    let m = Message::from_vec(buf)?;
    let questions = m.queries().iter().map(|q| Question {
        name: q.name().iter().map(|l| l.to_vec()).collect(),
        qtype: u16::from(q.query_type()),
        qclass: u16::from(q.query_class()),
    }).collect();
    Ok(QueryMessage { id: m.id(), questions })
}

/// A name that `Name::from_labels` accepts: labels of 1 to 63 bytes and at
/// most 255 bytes in all (`Name::len`: the label bytes and one per label).
pub open spec fn accepted_name(labels: Seq<Seq<u8>>) -> bool {
    labels_in_range(labels) && name_len(labels) <= 255
}

/// Whether `Name::from_labels` accepts every name inside the data.
pub open spec fn accepted_data(d: AnswerDataView) -> bool {
    match d {
        AnswerDataView::Cname(n) => accepted_name(n),
        AnswerDataView::Mx(_, n) => accepted_name(n),
        AnswerDataView::Ns(n) => accepted_name(n),
        _ => true,
    }
}

/// The record data that `trust_dns_proto`'s constructors make from this data.
pub uninterp spec fn rdata_of(d: AnswerDataView) -> RData;

/// The bytes that `Message::to_vec` writes for a response message holding
/// this id, the response type, these questions and these answers.
pub uninterp spec fn response_bytes(r: ResponseView) -> Seq<u8>;

/// Relies on the `RData` variants, `A` and `AAAA` over std's addresses from
/// octets and groups (most significant first), `MX::new` and `NULL::new`;
/// names go through `Name::from_labels`, which accepts exactly
/// the names of `accepted_name` (`Label::from_raw_bytes` and
/// `Name::extend_name`).
#[verifier::external_body]
fn outside_rdata(d: &AnswerData) -> (r: Result<RData, ProtoError>)
    ensures
        r is Ok <==> accepted_data(d@),
        r is Ok ==> r->Ok_0 == rdata_of(d@),
{
    let name = |n: &DomainName| Name::from_labels(n.iter().map(|l| l.as_slice()));
    Ok(match d {
        AnswerData::A(o) => RData::A(A((*o).into())),
        AnswerData::Aaaa(g) => RData::AAAA(AAAA((*g).into())),
        AnswerData::Cname(n) => RData::CNAME(CNAME(name(n)?)),
        AnswerData::Mx(p, n) => RData::MX(MX::new(*p, name(n)?)),
        AnswerData::Ns(n) => RData::NS(NS(name(n)?)),
        AnswerData::Null => RData::NULL(NULL::new()),
    })
}

/// Relies on `Message::to_vec` for a new message given the response's id,
/// the response type, its questions (`Query::query` on `Name::from_labels`,
/// `RecordType::from`, `DNSClass::from_u16`) and its answers (each made a
/// record of class IN by `Record::from_rdata` with the given data). The
/// header comes first: the id big-endian in bytes 0 and 1, the response flag
/// as the top bit of byte 2, the counts in bytes 4 to 11; a message without
/// questions or answers is the header alone. A written name with its
/// terminator may take at most 255 bytes (`Name::emit_as_canonical`). A
/// question that does not fit in the encoder's 65535 bytes is an error;
/// answers that do not fit are left out and the truncation flag (bit 1 of
/// byte 2) is set. The authority and additional sections stay empty. Counts
/// over 0xffff would panic.
#[verifier::external_body]
fn emit_response(resp: &ResponseMessage, data: Vec<RData>) -> (r: Result<Vec<u8>, ProtoError>)
    requires
        resp.questions@.len() <= MAX_SECTION_COUNT,
        resp.answers@.len() <= MAX_SECTION_COUNT,
        data@.len() == resp.answers@.len(),
        forall|i: int| 0 <= i < data@.len() ==> data@[i] == rdata_of(#[trigger] resp.answers@[i].data@),
    ensures
        r is Ok ==> r->Ok_0@ == response_bytes(resp@),
        r is Ok ==> response_header(r->Ok_0@, resp@),
        r is Ok && resp.questions@.len() == 0 && resp.answers@.len() == 0
            ==> r->Ok_0@.len() == HEADER_LEN,
        valid_response(resp@) && resp.questions@.len() + resp.answers@.len()
            <= MAX_FITTING_ENTRIES ==> r is Ok && wire_answer_count(r->Ok_0@)
            == resp.answers@.len(),
{
    let name = |n: &DomainName| Name::from_labels(n.iter().map(|l| l.as_slice()));
    let mut m = Message::new();
    m.set_id(resp.id).set_message_type(MessageType::Response);
    for q in &resp.questions {
        let mut query = Query::query(name(&q.name)?, RecordType::from(q.qtype));
        m.add_query(query.set_query_class(DNSClass::from_u16(q.qclass)?).clone());
    }
    for (a, d) in resp.answers.iter().zip(data) {
        m.add_answer(Record::from_rdata(name(&a.name)?, a.ttl, d));
    }
    m.to_vec()
}

/// Writes a response in the DNS wire format: the bytes `Message::to_vec`
/// writes for it.
///
/// It fails when a name or class cannot be written or a section is too long
/// for its header count. It succeeds, with every answer written, when all
/// names and classes can be written and the message has at most
/// `MAX_FITTING_ENTRIES` questions and answers.
pub fn encode_response(resp: &ResponseMessage) -> (r: Result<Vec<u8>, ResolveError>)
    ensures
        r is Ok ==> r->Ok_0@ == response_bytes(resp@),
        r is Ok ==> response_header(r->Ok_0@, resp@),
        r is Ok && resp.questions@.len() == 0 && resp.answers@.len() == 0
            ==> r->Ok_0@.len() == HEADER_LEN,
        r is Err ==> r == Err::<Vec<u8>, ResolveError>(ResolveError::Encode),
        valid_response(resp@) && resp.questions@.len() + resp.answers@.len()
            <= MAX_FITTING_ENTRIES ==> r is Ok && wire_answer_count(r->Ok_0@)
            == resp.answers@.len(),
        !valid_response(resp@) || resp.questions@.len() > MAX_SECTION_COUNT
            || resp.answers@.len() > MAX_SECTION_COUNT ==> r is Err,
{
    if resp.questions.len() > MAX_SECTION_COUNT || resp.answers.len() > MAX_SECTION_COUNT {
        return Err(ResolveError::Encode);
    }
    let ghost rv = resp@;
    let mut i: usize = 0;
    while i < resp.questions.len()
        invariant
            i <= resp.questions@.len(),
            rv == resp@,
            forall|k: int| 0 <= k < i ==> valid_question(#[trigger] rv.questions[k]),
        decreases resp.questions@.len() - i,
    {
        let q = &resp.questions[i];
        assert(rv.questions[i as int] == q@);
        if !name_fits(&q.name) || !is_known_class(q.qclass) {
            return Err(ResolveError::Encode);
        }
        i += 1;
    }
    let mut data: Vec<RData> = Vec::new();
    let mut j: usize = 0;
    while j < resp.answers.len()
        invariant
            j <= resp.answers@.len(),
            data@.len() == j,
            rv == resp@,
            forall|k: int| 0 <= k < rv.questions.len() ==> valid_question(#[trigger] rv.questions[k]),
            forall|k: int| 0 <= k < j ==> valid_answer(#[trigger] rv.answers[k]),
            forall|k: int| 0 <= k < j ==> data@[k] == rdata_of(#[trigger] resp.answers@[k].data@),
        decreases resp.answers@.len() - j,
    {
        let a = &resp.answers[j];
        assert(rv.answers[j as int] == a@);
        if !name_fits(&a.name) || !a.data.fits() {
            return Err(ResolveError::Encode);
        }
        match outside_rdata(&a.data) {
            Ok(d) => data.push(d),
            Err(_) => return Err(ResolveError::Encode),
        }
        j += 1;
    }
    assert(valid_response(rv));
    match emit_response(resp, data) {
        Ok(bytes) => Ok(bytes),
        Err(_) => Err(ResolveError::Encode),
    }
}

/// Answers a decoded query: the bytes of the response that `respond` builds,
/// as `encode_response` writes them. A query whose questions can be written
/// back always gets its response, with its answer.
pub fn handle_decoded(query: &QueryMessage) -> (r: Result<Vec<u8>, ResolveError>)
    ensures
        r is Ok ==> r->Ok_0@ == response_bytes(response_for(query@)),
        r is Ok ==> response_header(r->Ok_0@, response_for(query@)),
        r is Ok && query@.questions.len() == 0 ==> r->Ok_0@.len() == HEADER_LEN,
        r is Err ==> r == Err::<Vec<u8>, ResolveError>(ResolveError::Encode),
        valid_query(query@) ==> r is Ok && wire_answer_count(r->Ok_0@)
            == response_for(query@).answers.len(),
{
    let response = respond(query);
    proof {
        if valid_query(query@) {
            lemma_response_valid(query@);
        }
        assert(response@.questions.len() == response.questions@.len());
        assert(response@.answers.len() == response.answers@.len());
    }
    encode_response(&response)
}

/// Answers one DNS query datagram with one response datagram.
///
/// Bytes that do not decode as a DNS message give `Parse`; every message
/// that decodes gets its response. That response keeps the query's
/// transaction id, carries the response flag, and has one question and one
/// answer when the query had a question, none of either when it had none.
pub fn handle_query(query_buf: &[u8]) -> (r: Result<Vec<u8>, ResolveError>)
    ensures
        r is Err <==> !decodes(query_buf@),
        r is Err ==> r == Err::<Vec<u8>, ResolveError>(ResolveError::Parse),
        query_buf@.len() < HEADER_LEN ==> r is Err,
        r is Ok ==> r->Ok_0@ == response_bytes(response_for(decoded_query(query_buf@))),
        r is Ok ==> response_header(r->Ok_0@, response_for(decoded_query(query_buf@))),
        r is Ok && wire_question_count(query_buf@) == 0 ==> r->Ok_0@.len() == HEADER_LEN,
        r is Ok ==> header_holds(
            r->Ok_0@,
            wire_id(query_buf@),
            if wire_question_count(query_buf@) == 0 { 0int } else { 1int },
            if wire_question_count(query_buf@) == 0 { 0int } else { 1int },
        ),
        r is Ok ==> wire_answer_count(r->Ok_0@) == if wire_question_count(query_buf@) == 0 {
            0int
        } else {
            1int
        },
{
    let query = match decode_query(query_buf) {
        Ok(q) => q,
        Err(_) => return Err(ResolveError::Parse),
    };
    assert(query@.questions.len() == query.questions@.len());
    handle_decoded(&query)
}

/// Two datagrams that decode to the same transaction id and the same first
/// question (or both to none) get the same response bytes.
pub proof fn lemma_same_first_question_same_bytes(b1: Seq<u8>, b2: Seq<u8>)
    requires
        decoded_query(b1).id == decoded_query(b2).id,
        decoded_query(b1).questions.len() == 0 <==> decoded_query(b2).questions.len() == 0,
        decoded_query(b1).questions.len() > 0 ==> decoded_query(b1).questions[0]
            == decoded_query(b2).questions[0],
    ensures
        response_bytes(response_for(decoded_query(b1))) == response_bytes(
            response_for(decoded_query(b2)),
        ),
{
    lemma_response_depends_on_first_question(decoded_query(b1), decoded_query(b2));
}

} // verus!
