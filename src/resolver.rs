//! The static answer table and the step from a decoded query to its response.
use vstd::prelude::*;
use crate::message::{
    copy_name, name_len, name_view, valid_data, valid_query, valid_question, valid_response,
    AnswerData, AnswerDataView,
    AnswerRecord, AnswerView, DomainName, QueryMessage, QueryView, Question, QuestionView,
    ResponseMessage, ResponseView, CLASS_IN, TYPE_A, TYPE_AAAA, TYPE_CNAME, TYPE_MX, TYPE_NS,
};

verus! {

/// Time-to-live, in seconds, of every answer.
pub const ANSWER_TTL: u32 = 3600;

/// Preference of the fixed mail exchange.
pub const MX_PREFERENCE: u16 = 10;

pub open spec fn ipv4_loopback() -> Seq<u8> {
    seq![127u8, 0, 0, 1]
}

pub open spec fn ipv6_loopback() -> Seq<u16> {
    seq![0u16, 0, 0, 0, 0, 0, 0, 1]
}

/// The label `example` in ASCII.
pub open spec fn label_example() -> Seq<u8> {
    seq![101u8, 120, 97, 109, 112, 108, 101]
}

/// The label `com` in ASCII.
pub open spec fn label_com() -> Seq<u8> {
    seq![99u8, 111, 109]
}

/// The label `mail` in ASCII.
pub open spec fn label_mail() -> Seq<u8> {
    seq![109u8, 97, 105, 108]
}

/// The label `ns` in ASCII.
pub open spec fn label_ns() -> Seq<u8> {
    seq![110u8, 115]
}

/// `example.com.`
pub open spec fn canonical_target() -> Seq<Seq<u8>> {
    seq![label_example(), label_com()]
}

/// `mail.example.com.`
pub open spec fn mail_exchange() -> Seq<Seq<u8>> {
    seq![label_mail(), label_example(), label_com()]
}

/// `ns.example.com.`
pub open spec fn name_server() -> Seq<Seq<u8>> {
    seq![label_ns(), label_example(), label_com()]
}

/// Builds `example.com.`, under the given label when there is one.
fn example_com_name(first: Option<Vec<u8>>) -> (r: DomainName)
    ensures
        first is None ==> name_view(r) == canonical_target(),
        first is Some ==> name_view(r)
            == seq![first->Some_0@, label_example(), label_com()],
{
    let example: Vec<u8> = vec![101u8, 120, 97, 109, 112, 108, 101];
    let com: Vec<u8> = vec![99u8, 111, 109];
    assert(example@ =~= label_example());
    assert(com@ =~= label_com());
    let mut r: DomainName = Vec::new();
    match first {
        Some(l) => r.push(l),
        None => {},
    }
    r.push(example);
    r.push(com);
    proof {
        if first is None {
            assert(name_view(r) =~= canonical_target());
        } else {
            assert(name_view(r)
                =~= seq![first->Some_0@, label_example(), label_com()]);
        }
    }
    r
}

/// The record data answered for a question of the given type and class.
/// Only class IN has real data; every other pair gets the placeholder.
pub open spec fn data_for(qtype: u16, qclass: u16) -> AnswerDataView {
    if qclass != CLASS_IN {
        AnswerDataView::Null
    } else if qtype == TYPE_A {
        AnswerDataView::A(ipv4_loopback())
    } else if qtype == TYPE_AAAA {
        AnswerDataView::Aaaa(ipv6_loopback())
    } else if qtype == TYPE_CNAME {
        AnswerDataView::Cname(canonical_target())
    } else if qtype == TYPE_MX {
        AnswerDataView::Mx(MX_PREFERENCE, mail_exchange())
    } else if qtype == TYPE_NS {
        AnswerDataView::Ns(name_server())
    } else {
        AnswerDataView::Null
    }
}

/// The answer to a question: its name, the fixed TTL and the table's data.
pub open spec fn answer_for(q: QuestionView) -> AnswerView {
    AnswerView { name: q.name, ttl: ANSWER_TTL, data: data_for(q.qtype, q.qclass) }
}

/// The response to a query: same id; the first question, if any, echoed
/// together with its answer; nothing else.
pub open spec fn response_for(m: QueryView) -> ResponseView {
    if m.questions.len() == 0 {
        ResponseView { id: m.id, questions: seq![], answers: seq![] }
    } else {
        ResponseView {
            id: m.id,
            questions: seq![m.questions[0]],
            answers: seq![answer_for(m.questions[0])],
        }
    }
}

/// Builds the answer record for one question from the static table.
pub fn build_response(query: &Question) -> (r: AnswerRecord)
    ensures
        r@ == answer_for(query@),
{
    let data = if query.qclass != CLASS_IN {
        AnswerData::Null
    } else if query.qtype == TYPE_A {
        let a: [u8; 4] = [127, 0, 0, 1];
        assert(a@ =~= ipv4_loopback());
        AnswerData::A(a)
    } else if query.qtype == TYPE_AAAA {
        let a: [u16; 8] = [0, 0, 0, 0, 0, 0, 0, 1];
        assert(a@ =~= ipv6_loopback());
        AnswerData::Aaaa(a)
    } else if query.qtype == TYPE_CNAME {
        AnswerData::Cname(example_com_name(None))
    } else if query.qtype == TYPE_MX {
        let mail: Vec<u8> = vec![109u8, 97, 105, 108];
        assert(mail@ =~= label_mail());
        AnswerData::Mx(MX_PREFERENCE, example_com_name(Some(mail)))
    } else if query.qtype == TYPE_NS {
        let ns: Vec<u8> = vec![110u8, 115];
        assert(ns@ =~= label_ns());
        AnswerData::Ns(example_com_name(Some(ns)))
    } else {
        AnswerData::Null
    };
    AnswerRecord { name: copy_name(&query.name), ttl: ANSWER_TTL, data }
}

/// Builds the response to a decoded query.
pub fn respond(query: &QueryMessage) -> (r: ResponseMessage)
    ensures
        r@ == response_for(query@),
{
    let mut questions: Vec<Question> = Vec::new();
    let mut answers: Vec<AnswerRecord> = Vec::new();
    if query.questions.len() > 0 {
        let first = &query.questions[0];
        questions.push(first.copy());
        answers.push(build_response(first));
    }
    let r = ResponseMessage { id: query.id, questions, answers };
    assert(r@.questions =~= response_for(query@).questions);
    assert(r@.answers =~= response_for(query@).answers);
    r
}

/// Whether the static table holds real data for a (type, class) pair.
pub open spec fn is_recognized(qtype: u16, qclass: u16) -> bool {
    qclass == CLASS_IN && (qtype == TYPE_A || qtype == TYPE_AAAA || qtype == TYPE_CNAME
        || qtype == TYPE_MX || qtype == TYPE_NS)
}

/// A query whose only question asks for an IPv4 address in class IN is
/// answered by exactly one record: the IPv4 loopback address with the fixed
/// TTL.
pub proof fn lemma_ipv4_question_answer(m: QueryView)
    requires
        m.questions.len() == 1,
        m.questions[0].qtype == TYPE_A,
        m.questions[0].qclass == CLASS_IN,
    ensures
        response_for(m).answers.len() == 1,
        response_for(m).answers[0].data == AnswerDataView::A(ipv4_loopback()),
        response_for(m).answers[0].ttl == ANSWER_TTL,
{
}

/// Every response carries its query's transaction id.
pub proof fn lemma_response_keeps_id(m: QueryView)
    ensures
        response_for(m).id == m.id,
{
}

/// A query without questions gets a response without questions or answers.
pub proof fn lemma_no_question_no_answer(m: QueryView)
    requires
        m.questions.len() == 0,
    ensures
        response_for(m).questions.len() == 0,
        response_for(m).answers.len() == 0,
{
}

/// A query whose first question has a (type, class) pair outside the table
/// still gets exactly one answer: the placeholder record.
pub proof fn lemma_unrecognized_gets_placeholder(m: QueryView)
    requires
        m.questions.len() >= 1,
        !is_recognized(m.questions[0].qtype, m.questions[0].qclass),
    ensures
        response_for(m).answers.len() == 1,
        response_for(m).answers[0].data == AnswerDataView::Null,
        response_for(m).answers[0].ttl == ANSWER_TTL,
        response_for(m).answers[0].name == m.questions[0].name,
{
}

/// Every name in the table is one that DNS can carry.
pub proof fn lemma_table_names_valid(qtype: u16, qclass: u16)
    ensures
        valid_data(data_for(qtype, qclass)),
{
    reveal_with_fuel(name_len, 4);
    assert(canonical_target().drop_last() =~= seq![label_example()]);
    assert(seq![label_example()].drop_last() =~= Seq::<Seq<u8>>::empty());
    assert(mail_exchange().drop_last() =~= seq![label_mail(), label_example()]);
    assert(seq![label_mail(), label_example()].drop_last() =~= seq![label_mail()]);
    assert(seq![label_mail()].drop_last() =~= Seq::<Seq<u8>>::empty());
    assert(name_server().drop_last() =~= seq![label_ns(), label_example()]);
    assert(seq![label_ns(), label_example()].drop_last() =~= seq![label_ns()]);
    assert(seq![label_ns()].drop_last() =~= Seq::<Seq<u8>>::empty());
}

/// The response to a query whose questions can be written back can itself
/// be written.
pub proof fn lemma_response_valid(m: QueryView)
    requires
        valid_query(m),
    ensures
        valid_response(response_for(m)),
{
    if m.questions.len() > 0 {
        lemma_table_names_valid(m.questions[0].qtype, m.questions[0].qclass);
        assert(valid_question(m.questions[0]));
    }
}

/// The response depends only on the query's transaction id and its first
/// question: later questions are ignored.
pub proof fn lemma_response_depends_on_first_question(m1: QueryView, m2: QueryView)
    requires
        m1.id == m2.id,
        m1.questions.len() == 0 <==> m2.questions.len() == 0,
        m1.questions.len() > 0 ==> m1.questions[0] == m2.questions[0],
    ensures
        response_for(m1) == response_for(m2),
{
}

} // verus!
