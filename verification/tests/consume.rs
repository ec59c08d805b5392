//! Tests of the consume command's decision logic.

use fluvio_wire::consume::CliError;
use fluvio_wire::consume::ConsumeOpt;
use fluvio_wire::consume::ConsumeOutputType;
use fluvio_wire::consume::StartOffset;
use fluvio_wire::consume::StatusNote;
use fluvio_wire::consume::record_line;

fn options(from_beginning: bool, offset: Option<i64>) -> ConsumeOpt {
    ConsumeOpt {
        topic: String::from("t"),
        partition: 0,
        from_beginning,
        disable_continuous: false,
        key_value: false,
        offset,
        max_bytes: None,
        suppress_unknown: false,
        output: ConsumeOutputType::default(),
        filter: None,
        map: None,
    }
}

#[test]
fn output_defaults_to_dynamic() {
    assert_eq!(ConsumeOutputType::default(), ConsumeOutputType::dynamic);
}

#[test]
fn offset_from_beginning() {
    assert_eq!(
        options(true, None).calculate_offset(),
        Ok(StartOffset::FromBeginning(0))
    );
    assert_eq!(
        options(true, Some(5)).calculate_offset(),
        Ok(StartOffset::FromBeginning(5))
    );
    assert!(options(true, Some(-1)).calculate_offset().is_err());
    assert!(options(true, Some(1 << 40)).calculate_offset().is_err());
}

#[test]
fn offset_relative_and_absolute() {
    assert_eq!(
        options(false, Some(-3)).calculate_offset(),
        Ok(StartOffset::FromEnd(3))
    );
    assert_eq!(
        options(false, Some(7)).calculate_offset(),
        Ok(StartOffset::Absolute(7))
    );
    assert_eq!(options(false, None).calculate_offset(), Ok(StartOffset::End));
    assert!(options(false, Some(-(1i64 << 40))).calculate_offset().is_err());
    assert!(options(false, Some(i64::MIN)).calculate_offset().is_err());
}

#[test]
fn offset_complaint_names_the_rule() {
    match options(true, Some(-1)).calculate_offset() {
        Err(CliError::InvalidArg(m)) => assert_eq!(
            m,
            "Illegal offset. Relative offsets must be u32 and absolute offsets must be positive"
        ),
        other => panic!("expected a complaint, got {:?}", other),
    }
}

#[test]
fn status_notes() {
    assert_eq!(options(true, None).status_note(), StatusNote::FromStart);
    assert_eq!(options(true, Some(9)).status_note(), StatusNote::FromStart);
    assert_eq!(options(false, Some(9)).status_note(), StatusNote::FromOffset(9));
    assert_eq!(options(false, Some(-2)).status_note(), StatusNote::FromEndBack(-2));
    assert_eq!(options(false, Some(0)).status_note(), StatusNote::FromEndBack(0));
    assert_eq!(options(false, None).status_note(), StatusNote::Tail);
}

#[test]
fn record_lines() {
    assert_eq!(record_line(None, None, true), None);
    assert_eq!(
        record_line(Some(String::from("k")), None, true),
        None
    );
    assert_eq!(
        record_line(Some(String::from("k")), Some(String::from("v")), true),
        Some(String::from("[k] v"))
    );
    assert_eq!(
        record_line(None, Some(String::from("v")), true),
        Some(String::from("[null] v"))
    );
    assert_eq!(
        record_line(Some(String::from("k")), Some(String::from("v")), false),
        Some(String::from("v"))
    );
}
