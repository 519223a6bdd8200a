use trace_bridge::consumer::{
    handler, parent_of_envelope, process, process_at, read_record, settle, QueueRecord,
    RecordOutcome,
};
use trace_bridge::envelope::{Envelope, RecordError};
use trace_bridge::span::SpanKind;

const SAMPLE: &str = "00-4bf92f3577b34da6a3ce929d0e0e4736-00f067aa0ba902b7-01";
const SAMPLE_TRACE: u128 = 0x4bf92f3577b34da6a3ce929d0e0e4736;
const SAMPLE_SPAN: u64 = 0x00f067aa0ba902b7;

fn record(message_id: &str, body: &str) -> QueueRecord {
    QueueRecord { message_id: message_id.to_string(), body: Some(body.to_string()) }
}

fn body(id: &str, correlation_id: &str) -> String {
    Envelope::new(1700000000000, "x".to_string(), id.to_string(), Some(correlation_id.to_string()))
        .to_json()
}

#[test]
fn a_record_reads_as_its_envelope() {
    let envelope = read_record(&record("m", &body("i", SAMPLE))).expect("an envelope");
    assert_eq!(envelope.timestamp(), 1700000000000);
    assert_eq!(envelope.id(), "i");
    assert_eq!(envelope.correlation_id(), SAMPLE);
}

#[test]
fn a_record_without_a_body_cannot_be_read() {
    let empty = QueueRecord { message_id: "m".to_string(), body: None };
    assert_eq!(read_record(&empty), Err(RecordError::NoBody));
    assert_eq!(read_record(&record("m", "{")), Err(RecordError::NoTimestamp));
    assert_eq!(read_record(&record("m", "{\"timestamp\":1}")), Err(RecordError::NoDescription));
}

#[test]
fn publish_then_consume_keeps_the_lineage() {
    let published = "{\"timestamp\":1700000000000,\"description\":\"x\",\
                     \"id\":\"67e55044-10b1-426f-9247-bb680e5fe0c8\",\
                     \"correlation_id\":\"00-4bf92f3577b34da6a3ce929d0e0e4736-00f067aa0ba902b7-01\"}";
    let report = handler(&vec![record("m-1", published)]);
    assert_eq!(report.outcomes.len(), 1);
    assert!(report.failures().is_empty());
    let RecordOutcome::Processed { message_id, work } = &report.outcomes[0] else {
        panic!("expected a processed record")
    };
    assert_eq!(message_id, "m-1");
    let parent = work.span.parent.expect("a parent");
    assert_eq!(parent.span_id, 0x00f067aa0ba902b7);
    assert_eq!(parent.trace_id, 0x4bf92f3577b34da6a3ce929d0e0e4736);
    assert_eq!(work.span.context.trace_id, 0x4bf92f3577b34da6a3ce929d0e0e4736);
    assert_eq!(work.span.kind, SpanKind::Server);
    assert_eq!(work.span.name, "Processing Record");
    assert_eq!(work.span.attributes.get("otel.kind"), Some("SERVER".to_string()));
    assert_eq!(work.envelope.id(), "67e55044-10b1-426f-9247-bb680e5fe0c8");
    assert_eq!(
        work.line,
        "(Timestamp)=1700000000000|(Description)=x|(Id)=67e55044-10b1-426f-9247-bb680e5fe0c8|\
         (CorrelationId)=00-4bf92f3577b34da6a3ce929d0e0e4736-00f067aa0ba902b7-01"
    );
}

#[test]
fn an_empty_or_omitted_correlation_field_gives_a_root_span() {
    let omitted = "{\"timestamp\":1,\"description\":\"x\",\"id\":\"i\"}";
    let report = handler(&vec![record("a", &body("i", "")), record("b", omitted)]);
    assert!(report.failures().is_empty());
    assert_eq!(report.outcomes.len(), 2);
    for outcome in &report.outcomes {
        let RecordOutcome::Processed { work, .. } = outcome else {
            panic!("expected a processed record")
        };
        assert!(work.span.parent.is_none());
        assert_eq!(work.envelope.correlation_id(), "");
    }
}

#[test]
fn a_malformed_correlation_field_gives_a_root_span() {
    let report = handler(&vec![record("a", &body("i", "certainly not a context"))]);
    assert!(report.failures().is_empty());
    let RecordOutcome::Processed { work, .. } = &report.outcomes[0] else {
        panic!("expected a processed record")
    };
    assert!(work.span.parent.is_none());
    assert_eq!(work.envelope.correlation_id(), "certainly not a context");
}

#[test]
fn a_malformed_record_fails_alone() {
    let records = vec![
        record("m-0", &body("i0", SAMPLE)),
        record("m-1", &body("i1", "")),
        record("m-2", "{\"timestamp\": 17, \"description\": "),
        record("m-3", &body("i3", SAMPLE)),
        record("m-4", &body("i4", "")),
    ];
    let report = handler(&records);
    assert_eq!(report.outcomes.len(), 5);
    assert_eq!(report.failures(), vec!["m-2".to_string()]);
    for (k, outcome) in report.outcomes.iter().enumerate() {
        match outcome {
            RecordOutcome::Processed { message_id, work } => {
                assert_ne!(k, 2);
                assert_eq!(message_id, &format!("m-{k}"));
                assert_eq!(work.envelope.id(), format!("i{k}"));
            }
            RecordOutcome::Failed { message_id, error } => {
                assert_eq!(k, 2);
                assert_eq!(message_id, "m-2");
                assert_eq!(*error, RecordError::NoTimestamp);
            }
        }
    }
}

#[test]
fn every_position_of_the_malformed_record_is_isolated() {
    for n in 1..5usize {
        for k in 0..n {
            let records: Vec<QueueRecord> = (0..n)
                .map(|i| {
                    if i == k {
                        record(&format!("m-{i}"), "][")
                    } else {
                        record(&format!("m-{i}"), &body("i", SAMPLE))
                    }
                })
                .collect();
            let report = handler(&records);
            assert_eq!(report.failures(), vec![format!("m-{k}")]);
            let processed = report
                .outcomes
                .iter()
                .filter(|o| matches!(o, RecordOutcome::Processed { .. }))
                .count();
            assert_eq!(processed, n - 1);
        }
    }
}

#[test]
fn failures_are_named_in_the_order_of_the_batch() {
    let records = vec![
        QueueRecord { message_id: "first".to_string(), body: None },
        record("second", &body("i", "")),
        record("third", "{\"timestamp\":1,\"description\":\"d\"}"),
    ];
    let report = handler(&records);
    assert_eq!(report.failures(), vec!["first".to_string(), "third".to_string()]);
    let RecordOutcome::Failed { error, .. } = &report.outcomes[0] else { panic!("failed") };
    assert_eq!(*error, RecordError::NoBody);
    let RecordOutcome::Failed { error, .. } = &report.outcomes[2] else { panic!("failed") };
    assert_eq!(*error, RecordError::NoId);
}

#[test]
fn an_empty_batch_has_nothing_to_report() {
    let report = handler(&Vec::new());
    assert!(report.outcomes.is_empty());
    assert!(report.failures().is_empty());
}

#[test]
fn records_of_one_batch_do_not_share_context() {
    let other = "00-0af7651916cd43dd8448eb211c80319c-b7ad6b7169203331-00";
    let report = handler(&vec![
        record("a", &body("i", SAMPLE)),
        record("b", &body("i", "")),
        record("c", &body("i", other)),
    ]);
    let parents: Vec<Option<u128>> = report
        .outcomes
        .iter()
        .map(|outcome| match outcome {
            RecordOutcome::Processed { work, .. } => work.span.parent.map(|p| p.trace_id),
            RecordOutcome::Failed { .. } => panic!("expected a processed record"),
        })
        .collect();
    assert_eq!(
        parents,
        vec![Some(SAMPLE_TRACE), None, Some(0x0af7651916cd43dd8448eb211c80319c)]
    );
}

#[test]
fn the_work_on_an_envelope_is_fixed_by_its_arguments() {
    let envelope = Envelope::from_json(&body("i", SAMPLE)).expect("an envelope");
    let parent = parent_of_envelope(&envelope).expect("a parent");
    assert_eq!((parent.trace_id, parent.span_id, parent.flags), (SAMPLE_TRACE, SAMPLE_SPAN, 1));
    let work = process_at(envelope.clone(), 9, 8, 100, 200);
    assert_eq!(work.envelope, envelope);
    assert_eq!(work.line, envelope.to_log_line());
    assert_eq!(work.span.context.trace_id, SAMPLE_TRACE);
    assert_eq!(work.span.context.span_id, 8);
    assert_eq!((work.span.start_time, work.span.end_time), (100, 200));
    assert_eq!(work.span.parent.map(|p| p.span_id), Some(SAMPLE_SPAN));
    let again = process(envelope);
    assert_eq!(again.span.parent.map(|p| p.span_id), Some(SAMPLE_SPAN));
    assert_eq!(again.span.name, "Processing Record");
}

#[test]
fn settling_a_record_keeps_its_identifier() {
    let RecordOutcome::Processed { message_id, .. } = settle(&record("keep", &body("i", ""))) else {
        panic!("expected a processed record")
    };
    assert_eq!(message_id, "keep");
    let RecordOutcome::Failed { message_id, error } = settle(&record("lost", "")) else {
        panic!("expected a failed record")
    };
    assert_eq!(message_id, "lost");
    assert_eq!(error, RecordError::NoTimestamp);
}
