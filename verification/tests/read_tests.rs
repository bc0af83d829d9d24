use nu_pipes::{FilterStep, Pipe, PipeRead, PipeReaderReadCondition, ReadMode, ReadStep};

fn filled(values: &[i32], size: usize) -> Pipe<i32> {
    let mut p = Pipe::new(size);
    for v in values {
        assert!(p.try_send(*v).is_ok());
    }
    p
}

type NoFilter = PipeReaderReadCondition<()>;

#[test]
fn plain_read_waits_then_ends_when_closed() {
    let mut p = filled(&[1, 2], 8);
    let mut r = PipeRead::new::<()>(&None);
    assert!(matches!(r.step(&mut p), ReadStep::Item(1)));
    assert!(matches!(r.step(&mut p), ReadStep::Item(2)));
    assert!(matches!(r.step(&mut p), ReadStep::Wait));
    assert!(p.try_send(3).is_ok());
    assert!(matches!(r.step(&mut p), ReadStep::Item(3)));
    p.release_writer();
    assert!(matches!(r.step(&mut p), ReadStep::Done));
    assert!(r.is_finished());
    assert!(matches!(r.step(&mut p), ReadStep::Done));
}

#[test]
fn count_read_takes_at_most_n() {
    let mut p = filled(&[1, 2, 3], 8);
    let cond: Option<NoFilter> = Some(PipeReaderReadCondition::Count(2));
    let mut r = PipeRead::new(&cond);
    assert!(matches!(r.step(&mut p), ReadStep::Item(1)));
    assert!(matches!(r.step(&mut p), ReadStep::Item(2)));
    assert!(matches!(r.step(&mut p), ReadStep::Done));
    // the third value stays for the next reader
    assert_eq!(p.recv().unwrap(), 3);
}

#[test]
fn count_zero_reads_nothing() {
    let mut p = filled(&[1], 8);
    let cond: Option<NoFilter> = Some(PipeReaderReadCondition::Count(0));
    let mut r = PipeRead::new(&cond);
    assert!(matches!(r.step(&mut p), ReadStep::Done));
    assert_eq!(p.recv().unwrap(), 1);
}

#[test]
fn count_read_ends_early_when_closed() {
    let mut p = filled(&[1], 8);
    p.release_writer();
    let cond: Option<NoFilter> = Some(PipeReaderReadCondition::Count(5));
    let mut r = PipeRead::new(&cond);
    assert!(matches!(r.step(&mut p), ReadStep::Item(1)));
    assert!(matches!(r.step(&mut p), ReadStep::Done));
}

#[test]
fn filter_read_stops_at_first_rejected_value() {
    let mut p = filled(&[2, 4, 5, 6], 8);
    let cond = Some(PipeReaderReadCondition::Filter(|v: &i32| *v % 2 == 0));
    let mut r = PipeRead::new(&cond);
    let mut out = Vec::new();
    loop {
        match r.step(&mut p) {
            ReadStep::Item(v) => out.push(v),
            ReadStep::Judge => {
                let verdict: Result<bool, String> = match &cond {
                    Some(PipeReaderReadCondition::Filter(f)) => Ok(f(p.peek().unwrap())),
                    _ => unreachable!(),
                };
                match r.judge(&mut p, verdict) {
                    FilterStep::Item(v) => out.push(v),
                    FilterStep::Stop => break,
                    FilterStep::Failed(e) => panic!("{}", e),
                }
            }
            ReadStep::Wait | ReadStep::Done => break,
        }
    }
    assert_eq!(out, vec![2, 4]);
    assert!(r.is_finished());
    // the rejected value is still the next one
    assert_eq!(p.recv().unwrap(), 5);
    assert_eq!(p.recv().unwrap(), 6);
}

#[test]
fn filter_failure_ends_the_read() {
    let mut p = filled(&[1, 2], 8);
    let cond: Option<PipeReaderReadCondition<()>> = Some(PipeReaderReadCondition::Filter(()));
    let mut r = PipeRead::new(&cond);
    assert!(matches!(r.step(&mut p), ReadStep::Judge));
    match r.judge(&mut p, Err::<bool, &str>("boom")) {
        FilterStep::Failed(e) => assert_eq!(e, "boom"),
        _ => panic!("expected a failure"),
    }
    assert!(matches!(r.step(&mut p), ReadStep::Done));
    assert_eq!(p.recv().unwrap(), 1);
}

#[test]
fn filter_read_waits_for_values() {
    let mut p: Pipe<i32> = Pipe::new(2);
    let cond: Option<PipeReaderReadCondition<()>> = Some(PipeReaderReadCondition::Filter(()));
    let mut r = PipeRead::new(&cond);
    assert!(matches!(r.step(&mut p), ReadStep::Wait));
    p.release_writer();
    assert!(matches!(r.step(&mut p), ReadStep::Done));
}

#[test]
fn read_mode_and_pending_are_visible() {
    let mut p = filled(&[1], 4);
    assert!(p.has_pending());
    let cond: Option<PipeReaderReadCondition<()>> = Some(PipeReaderReadCondition::Filter(()));
    let mut r = PipeRead::new(&cond);
    assert_eq!(r.read_mode(), ReadMode::Filter);
    assert!(matches!(r.step(&mut p), ReadStep::Judge));
    assert!(p.has_pending());
    assert!(matches!(r.judge(&mut p, Ok::<bool, ()>(true)), FilterStep::Item(1)));
    assert!(!p.has_pending());
    assert_eq!(PipeRead::new::<()>(&None).read_mode(), ReadMode::All);
}
