use stub_dns::message::{
    copy_name, is_known_class, name_fits, AnswerData, DomainName, QueryMessage, Question, CLASS_IN, TYPE_A, TYPE_AAAA, TYPE_CNAME, TYPE_MX,
    TYPE_NS, TYPE_NULL,
};
use stub_dns::resolver::{build_response, respond, ANSWER_TTL, MX_PREFERENCE};

fn labels(name: &str) -> DomainName {
    name.split('.').filter(|l| !l.is_empty()).map(|l| l.as_bytes().to_vec()).collect()
}

fn question(name: &str, qtype: u16, qclass: u16) -> Question {
    Question { name: labels(name), qtype, qclass }
}

#[test]
fn a_in_answers_ipv4_loopback() {
    let r = build_response(&question("example.org.", TYPE_A, CLASS_IN));
    assert_eq!(r.name, labels("example.org."));
    assert_eq!(r.ttl, 3600);
    assert!(matches!(r.data, AnswerData::A([127, 0, 0, 1])));
    assert_eq!(r.data.record_type(), TYPE_A);
}

#[test]
fn aaaa_in_answers_ipv6_loopback() {
    let r = build_response(&question("v6.test.", TYPE_AAAA, CLASS_IN));
    assert_eq!(r.ttl, ANSWER_TTL);
    assert!(matches!(r.data, AnswerData::Aaaa([0, 0, 0, 0, 0, 0, 0, 1])));
    assert_eq!(r.data.record_type(), 28);
}

#[test]
fn cname_in_answers_fixed_target() {
    let r = build_response(&question("alias.test.", TYPE_CNAME, CLASS_IN));
    match r.data {
        AnswerData::Cname(n) => assert_eq!(n, labels("example.com.")),
        _ => panic!("expected a canonical name"),
    }
}

#[test]
fn mx_in_answers_fixed_exchange() {
    let r = build_response(&question("example.org.", TYPE_MX, CLASS_IN));
    match r.data {
        AnswerData::Mx(p, n) => {
            assert_eq!(p, 10);
            assert_eq!(p, MX_PREFERENCE);
            assert_eq!(n, labels("mail.example.com."));
        }
        _ => panic!("expected a mail exchange"),
    }
}

#[test]
fn ns_in_answers_fixed_server() {
    let r = build_response(&question("example.org.", TYPE_NS, CLASS_IN));
    match r.data {
        AnswerData::Ns(n) => assert_eq!(n, labels("ns.example.com.")),
        _ => panic!("expected a name server"),
    }
}

#[test]
fn unknown_type_gets_placeholder() {
    let r = build_response(&question("x.test.", 16, CLASS_IN));
    assert_eq!(r.name, labels("x.test."));
    assert_eq!(r.ttl, 3600);
    assert!(matches!(r.data, AnswerData::Null));
    assert_eq!(r.data.record_type(), TYPE_NULL);
}

#[test]
fn other_class_gets_placeholder() {
    let r = build_response(&question("example.org.", TYPE_A, 3));
    assert!(matches!(r.data, AnswerData::Null));
}

#[test]
fn respond_echoes_first_question_only() {
    let q = QueryMessage {
        id: 0x1234,
        questions: vec![question("example.org.", TYPE_A, CLASS_IN), question("b.test.", TYPE_MX, CLASS_IN)],
    };
    let r = respond(&q);
    assert_eq!(r.id, 0x1234);
    assert_eq!(r.questions.len(), 1);
    assert_eq!(r.questions[0].name, labels("example.org."));
    assert_eq!(r.questions[0].qtype, TYPE_A);
    assert_eq!(r.questions[0].qclass, CLASS_IN);
    assert_eq!(r.answers.len(), 1);
    assert_eq!(r.answers[0].name, labels("example.org."));
    assert!(matches!(r.answers[0].data, AnswerData::A([127, 0, 0, 1])));
}

#[test]
fn respond_without_questions_is_empty() {
    let r = respond(&QueryMessage { id: 0xffff, questions: vec![] });
    assert_eq!(r.id, 0xffff);
    assert!(r.questions.is_empty());
    assert!(r.answers.is_empty());
}

#[test]
fn respond_unrecognized_pair_has_one_placeholder() {
    let r = respond(&QueryMessage { id: 7, questions: vec![question("x.test.", 16, 255)] });
    assert_eq!(r.answers.len(), 1);
    assert!(matches!(r.answers[0].data, AnswerData::Null));
}

#[test]
fn copy_keeps_question() {
    let q = question("copy.test.", 99, 4);
    let c = q.copy();
    assert_eq!(c.name, q.name);
    assert_eq!(c.qtype, 99);
    assert_eq!(c.qclass, 4);
}

#[test]
fn copy_name_keeps_raw_labels() {
    let n: DomainName = vec![vec![0x30, 0x2f, 0x32, 0x35], vec![0xff, 0x20], vec![]];
    assert_eq!(copy_name(&n), n);
}

#[test]
fn name_fits_checks_label_and_total_lengths() {
    assert!(name_fits(&labels("example.org.")));
    assert!(name_fits(&vec![]));
    assert!(!name_fits(&vec![vec![]]));
    assert!(!name_fits(&vec![vec![b'a'; 64]]));
    assert!(name_fits(&vec![vec![b'a'; 63], vec![b'b'; 63], vec![b'c'; 63], vec![b'd'; 61]]));
    assert!(!name_fits(&vec![vec![b'a'; 63], vec![b'b'; 63], vec![b'c'; 63], vec![b'd'; 62]]));
}

#[test]
fn known_classes() {
    for c in [1u16, 3, 4, 254, 255] {
        assert!(is_known_class(c));
    }
    for c in [0u16, 2, 5, 253, 256] {
        assert!(!is_known_class(c));
    }
}

#[test]
fn data_fits_checks_inner_names() {
    assert!(AnswerData::Null.fits());
    assert!(AnswerData::A([1, 2, 3, 4]).fits());
    assert!(AnswerData::Mx(5, labels("mx.test.")).fits());
    assert!(!AnswerData::Ns(vec![vec![]]).fits());
}
