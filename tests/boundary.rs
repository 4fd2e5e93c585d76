use frontend_rs::after_emit;
use frontend_rs::after_parse;
use frontend_rs::decode_source;
use frontend_rs::free_jsparagus;
use frontend_rs::CVec;
use frontend_rs::EmitOutput;
use frontend_rs::EmitStatus;
use frontend_rs::JsparagusError;
use frontend_rs::JsparagusResult;
use frontend_rs::OutcomeKind;
use frontend_rs::ParseStatus;
use frontend_rs::Step;

#[test]
fn it_works() {
    assert_eq!(2 + 2, 4);
}

fn sample_output() -> EmitOutput {
    EmitOutput {
        bytecode: vec![0x3e, 0x02, 0x3e, 0x02, 0x16, 0xd1],
        strings: vec!["x".to_string(), "é".to_string()],
        maximum_stack_depth: 2,
        num_ic_entries: 1,
    }
}

#[test]
fn round_trip_keeps_length_capacity_and_elements() {
    let mut v: Vec<u8> = Vec::with_capacity(16);
    v.extend_from_slice(&[7, 8, 9]);
    let capacity = v.capacity();
    let c = CVec::from(v);
    assert_eq!(c.len(), 3);
    assert_eq!(c.capacity(), capacity);
    let back = c.into();
    assert_eq!(back, vec![7, 8, 9]);
    assert_eq!(back.capacity(), capacity);
}

#[test]
fn round_trip_of_nested_descriptors() {
    let inner = vec![CVec::from(vec![1u8]), CVec::from(Vec::new())];
    let outer = CVec::from(inner);
    assert_eq!(outer.len(), 2);
    let back: Vec<Vec<u8>> = outer.into().into_iter().map(|c| c.into()).collect();
    assert_eq!(back, vec![vec![1u8], vec![]]);
}

#[test]
fn empty_descriptor_owns_nothing() {
    let c: CVec<u8> = CVec::empty();
    assert_eq!(c.len(), 0);
    assert_eq!(c.capacity(), 0);
    let back = c.into();
    assert!(back.is_empty());
    assert_eq!(back.capacity(), 0);
}

#[test]
fn success_outcome_carries_the_emitter_output() {
    let r = JsparagusResult::from_pipeline(Ok(sample_output()));
    assert_eq!(r.kind(), OutcomeKind::Success);
    assert!(!r.unimplemented());
    assert_eq!(r.error().len(), 0);
    assert_eq!(r.error().capacity(), 0);
    assert_eq!(r.bytecode().len(), 6);
    assert_eq!(r.strings().len(), 2);
    assert_eq!(r.maximum_stack_depth(), 2);
    assert_eq!(r.num_ic_entries(), 1);
    let (error, bytecode, strings) = r.into_parts();
    assert!(error.is_empty());
    assert_eq!(bytecode, vec![0x3e, 0x02, 0x3e, 0x02, 0x16, 0xd1]);
    assert_eq!(strings, vec![b"x".to_vec(), vec![0xc3, 0xa9]]);
}

#[test]
fn generic_error_outcome_holds_terminated_message() {
    let r = JsparagusResult::from_pipeline(Err(JsparagusError::GenericError(
        "unexpected token".to_string(),
    )));
    assert_eq!(r.kind(), OutcomeKind::GenericError);
    assert!(!r.unimplemented());
    assert_eq!(r.bytecode().len(), 0);
    assert_eq!(r.bytecode().capacity(), 0);
    assert_eq!(r.strings().len(), 0);
    assert_eq!(r.strings().capacity(), 0);
    assert_eq!(r.maximum_stack_depth(), 0);
    assert_eq!(r.num_ic_entries(), 0);
    let (error, bytecode, strings) = r.into_parts();
    assert_eq!(error, b"unexpected token\0".to_vec());
    assert!(bytecode.is_empty());
    assert!(strings.is_empty());
}

#[test]
fn generic_error_with_empty_message_is_still_an_error() {
    let r = JsparagusResult::from_pipeline(Err(JsparagusError::GenericError(String::new())));
    assert_eq!(r.kind(), OutcomeKind::GenericError);
    assert_eq!(r.error().len(), 1);
    let (error, _, _) = r.into_parts();
    assert_eq!(error, vec![0u8]);
}

#[test]
fn not_implemented_outcome_is_all_empty() {
    let r = JsparagusResult::from_pipeline(Err(JsparagusError::NotImplemented));
    assert_eq!(r.kind(), OutcomeKind::NotImplemented);
    assert!(r.unimplemented());
    for c in [r.error(), r.bytecode()] {
        assert_eq!(c.len(), 0);
        assert_eq!(c.capacity(), 0);
    }
    assert_eq!(r.strings().len(), 0);
    assert_eq!(r.strings().capacity(), 0);
    assert_eq!(r.maximum_stack_depth(), 0);
    assert_eq!(r.num_ic_entries(), 0);
    let (error, bytecode, strings) = r.into_parts();
    assert_eq!(error.capacity(), 0);
    assert_eq!(bytecode.capacity(), 0);
    assert_eq!(strings.capacity(), 0);
}

#[test]
fn release_of_every_kind() {
    free_jsparagus(JsparagusResult::from_pipeline(Ok(sample_output())));
    free_jsparagus(JsparagusResult::from_pipeline(Err(JsparagusError::GenericError(
        "bad".to_string(),
    ))));
    free_jsparagus(JsparagusResult::from_pipeline(Err(JsparagusError::NotImplemented)));
}

#[test]
fn invalid_utf8_is_a_generic_error_before_any_stage() {
    let bytes: [u8; 4] = [0x32, 0xff, 0x2b, 0x32];
    match decode_source(&bytes) {
        Err(JsparagusError::GenericError(message)) => {
            assert_eq!(message, "Invalid UTF8");
            let r = JsparagusResult::from_pipeline(Err(JsparagusError::GenericError(message)));
            assert_eq!(r.kind(), OutcomeKind::GenericError);
            let (error, _, _) = r.into_parts();
            assert_eq!(error, b"Invalid UTF8\0".to_vec());
        }
        other => panic!("unexpected {:?}", other),
    }
}

#[test]
fn valid_text_is_decoded() {
    assert_eq!(decode_source(b"2+2").unwrap(), "2+2");
    assert_eq!(decode_source("é".as_bytes()).unwrap(), "é");
    assert_eq!(decode_source(b"").unwrap(), "");
}

#[test]
fn malformed_probe_text_is_rejected_without_an_outcome() {
    assert!(decode_source(&[0xc3]).is_err());
    assert!(decode_source(&[0xed, 0xa0, 0x80]).is_err());
}

#[test]
fn parsed_script_goes_to_the_emitter() {
    let d = after_parse(ParseStatus::Parsed);
    assert!(matches!(d.step, Step::Emit));
    assert!(d.trace.is_none());
}

#[test]
fn parser_capability_gap_is_not_implemented_with_trace() {
    let d = after_parse(ParseStatus::NotImplemented("with statement".to_string()));
    assert!(matches!(d.step, Step::Finish(Err(JsparagusError::NotImplemented))));
    assert_eq!(d.trace.as_deref(), Some("Unimplemented: with statement"));
}

#[test]
fn parser_error_is_generic_error_with_its_message() {
    let d = after_parse(ParseStatus::Failed("unexpected end of input".to_string()));
    match d.step {
        Step::Finish(Err(JsparagusError::GenericError(m))) => {
            assert_eq!(m, "unexpected end of input")
        }
        other => panic!("unexpected {:?}", other),
    }
    assert!(d.trace.is_none());
}

#[test]
fn emitter_capability_gap_is_not_implemented_with_trace() {
    let d = after_emit(EmitStatus::NotImplemented("for-in loop".to_string()));
    assert_eq!(d.trace.as_deref(), Some("Unimplemented: for-in loop"));
    match d.step {
        Step::Finish(result) => {
            let r = JsparagusResult::from_pipeline(result);
            assert_eq!(r.kind(), OutcomeKind::NotImplemented);
            free_jsparagus(r);
        }
        Step::Emit => panic!("the emitter was already run"),
    }
}

#[test]
fn two_plus_two_runs_to_success() {
    let text = decode_source(b"2+2").unwrap();
    assert_eq!(text, "2+2");
    assert!(matches!(after_parse(ParseStatus::Parsed).step, Step::Emit));
    let d = after_emit(EmitStatus::Emitted(EmitOutput {
        bytecode: vec![0x3e, 0x02, 0x3e, 0x02, 0x16, 0xd1],
        strings: Vec::new(),
        maximum_stack_depth: 2,
        num_ic_entries: 0,
    }));
    assert!(d.trace.is_none());
    match d.step {
        Step::Finish(result) => {
            let r = JsparagusResult::from_pipeline(result);
            assert_eq!(r.kind(), OutcomeKind::Success);
            assert!(r.bytecode().len() > 0);
            assert_eq!(r.strings().len(), 0);
            assert_eq!(r.maximum_stack_depth(), 2);
            free_jsparagus(r);
        }
        Step::Emit => panic!("the emitter was already run"),
    }
}

#[test]
fn same_emitter_output_gives_same_metadata() {
    let a = JsparagusResult::from_pipeline(Ok(sample_output()));
    let b = JsparagusResult::from_pipeline(Ok(sample_output()));
    assert_eq!(a.maximum_stack_depth(), b.maximum_stack_depth());
    assert_eq!(a.num_ic_entries(), b.num_ic_entries());
}
