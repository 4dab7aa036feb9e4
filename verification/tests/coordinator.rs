use alarm_clock::alarm::{parse_wake_time, AlarmError, ScheduledAlarm};
use alarm_clock::pmset::{CommandExecutor, InvocationLog, PmsetError, RecordingExecutor};

// An executor whose privilege layer always rejects the command, as when the
// user declines the authentication prompt.
struct DecliningExecutor;

impl CommandExecutor for DecliningExecutor {
    fn history(&self) -> InvocationLog {
        unreachable!()
    }

    fn execute(&mut self, _command: &str, _args: &Vec<String>) -> Result<(), PmsetError> {
        Err(PmsetError::CommandFailed("user declined".to_string()))
    }
}

#[test]
fn test_schedule_records_and_formats() {
    let mut executor = RecordingExecutor::new();
    let mut slot = ScheduledAlarm::new();
    assert!(slot.pending_wake().is_none());

    slot.schedule(&mut executor, "2024-01-01T08:30:00-00:00").unwrap();

    let pending = slot.pending_wake().unwrap();
    assert_eq!(executor.commands.len(), 1);
    assert_eq!(executor.commands[0].name, "pmset");
    assert_eq!(executor.commands[0].args[0], "schedule");
    assert_eq!(executor.commands[0].args[1], "wakeorpoweron");
    // This process runs in the UTC zone, so the local rendering is exact.
    assert_eq!(executor.commands[0].args[2], "01/01/2024 08:30:00");
    assert_eq!(
        executor.commands[0].args[2],
        alarm_clock::pmset::format_wake_time(&pending)
    );
}

#[test]
fn test_schedule_malformed_input_never_reaches_executor() {
    let mut executor = RecordingExecutor::new();
    let mut slot = ScheduledAlarm::new();

    let r = slot.schedule(&mut executor, "not-a-date");

    assert!(matches!(r, Err(AlarmError::Parse(_))));
    assert_eq!(executor.commands.len(), 0);
    assert!(slot.pending_wake().is_none());
}

#[test]
fn test_cancel_without_schedule_is_a_noop() {
    let mut executor = RecordingExecutor::new();
    let mut slot = ScheduledAlarm::new();

    let r = slot.cancel(&mut executor);

    assert!(r.is_ok());
    assert_eq!(executor.commands.len(), 0);
}

#[test]
fn test_cancel_clears_the_recorded_time() {
    let mut executor = RecordingExecutor::new();
    let mut slot = ScheduledAlarm::new();

    slot.schedule(&mut executor, "2024-01-01T08:30:00-00:00").unwrap();
    assert!(slot.pending_wake().is_some());

    let pending = slot.pending_wake().unwrap();
    slot.cancel(&mut executor).unwrap();

    assert!(slot.pending_wake().is_none());
    assert_eq!(executor.commands.len(), 2);
    assert_eq!(executor.commands[1].args[0], "schedule");
    assert_eq!(executor.commands[1].args[1], "cancel");
    assert_eq!(executor.commands[1].args[2], "wakeorpoweron");
    // The cancel names exactly the recorded time, in any zone.
    assert_eq!(
        executor.commands[1].args[3],
        alarm_clock::pmset::format_wake_time(&pending)
    );
}

#[test]
fn test_record_and_clear_pending() {
    let mut slot = ScheduledAlarm::new();
    let time = alarm_clock::pmset::WakeTime::new(2027, 3, 4, 5, 6, 7).unwrap();

    slot.record(&time);
    assert_eq!(slot.pending_wake(), Some(time));
    slot.clear_pending();
    assert!(slot.pending_wake().is_none());
}

#[test]
fn test_declined_schedule_records_nothing() {
    let mut executor = DecliningExecutor;
    let mut slot = ScheduledAlarm::new();

    let r = slot.schedule(&mut executor, "2024-01-01T08:30:00-00:00");

    match r {
        Err(AlarmError::Command(PmsetError::CommandFailed(stderr))) => {
            assert_eq!(stderr, "user declined");
        }
        other => panic!("unexpected result: {:?}", other),
    }
    assert!(slot.pending_wake().is_none());
}

// An executor whose underlying process cannot even be started.
struct UnlaunchableExecutor;

impl CommandExecutor for UnlaunchableExecutor {
    fn history(&self) -> InvocationLog {
        unreachable!()
    }

    fn execute(&mut self, _command: &str, _args: &Vec<String>) -> Result<(), PmsetError> {
        Err(PmsetError::ExecutionFailed("no such file or directory".to_string()))
    }
}

#[test]
fn test_failed_cancel_keeps_the_recorded_time() {
    let mut executor = RecordingExecutor::new();
    let mut slot = ScheduledAlarm::new();
    slot.schedule(&mut executor, "2024-01-01T08:30:00-00:00").unwrap();

    let r = slot.cancel(&mut UnlaunchableExecutor);

    assert!(matches!(r, Err(PmsetError::ExecutionFailed(_))));
    // The time stays recorded, so the cancel can be retried.
    assert!(slot.pending_wake().is_some());
}

#[test]
fn test_parse_accepts_rfc3339() {
    // The same instant written with different offsets parses to the same
    // local time, whatever zone this process runs in.
    let t = parse_wake_time("2031-06-15T12:00:00+00:00").unwrap();
    let z = parse_wake_time("2031-06-15T12:00:00Z").unwrap();
    assert_eq!(t, z);
}

#[test]
fn test_parse_applies_the_offset() {
    // 23:30 at +02:00 and 21:30 at +00:00 are the same instant, so they
    // parse to the same local time in any zone.
    let a = parse_wake_time("2031-06-15T23:30:00+02:00").unwrap();
    let b = parse_wake_time("2031-06-15T21:30:00+00:00").unwrap();
    assert_eq!(a, b);
}

#[test]
fn test_parse_rejects_malformed_text() {
    assert!(matches!(parse_wake_time(""), Err(AlarmError::Parse(_))));
    assert!(matches!(parse_wake_time("not-a-date"), Err(AlarmError::Parse(_))));
    assert!(matches!(
        parse_wake_time("2024-01-01 08:30:00"),
        Err(AlarmError::Parse(_))
    ));
    assert!(matches!(
        parse_wake_time("2024-13-01T08:30:00Z"),
        Err(AlarmError::Parse(_))
    ));
    assert!(matches!(
        parse_wake_time("2024-02-30T08:30:00Z"),
        Err(AlarmError::Parse(_))
    ));
}
