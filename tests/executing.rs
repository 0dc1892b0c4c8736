use aline::{
    CommandExecutor, Error, InlineCommandExecutor, InlineCommandExecutorImpl, InlineDynCommandExecutor, Step,
};

/// Finishes after suspending a fixed number of times.
struct Countdown {
    suspensions: u32,
    runs: u32,
}

impl CommandExecutor for Countdown {
    type Task = u32;

    fn execute(&mut self) -> u32 {
        self.runs += 1;
        self.suspensions
    }

    fn resume(&mut self, task: &mut u32) -> Step {
        if *task == 0 {
            Step::Done(Ok(()))
        } else {
            *task -= 1;
            Step::Pending
        }
    }
}

/// Finishes at once with a failure carrying a label.
struct Failing {
    label: [u8; 4],
}

impl CommandExecutor for Failing {
    type Task = [u8; 4];

    fn execute(&mut self) -> [u8; 4] {
        self.label
    }

    fn resume(&mut self, _task: &mut [u8; 4]) -> Step {
        Step::Done(Err(Error::ArgumentParseError))
    }
}

fn drive(exec: &mut InlineDynCommandExecutor<'_>) -> Result<(), Error> {
    exec.execute();
    loop {
        if let Step::Done(r) = exec.poll() {
            return r;
        }
    }
}

#[test]
fn my_test() {
    let mut inline_cmd1 = InlineCommandExecutorImpl::new(Countdown { suspensions: 0, runs: 0 });
    let mut inline_cmd2 = InlineCommandExecutorImpl::new(Countdown { suspensions: 3, runs: 0 });
    {
        let mut cmds: [InlineDynCommandExecutor<'_>; 2] = [
            InlineDynCommandExecutor::<dyn InlineCommandExecutor>::new(&mut inline_cmd1),
            InlineDynCommandExecutor::<dyn InlineCommandExecutor>::new(&mut inline_cmd2),
        ];
        for cmd in &mut cmds {
            drive(cmd).unwrap();
        }
    }
    assert!(!inline_cmd1.is_in_flight());
    assert!(!inline_cmd2.is_in_flight());
}

#[test]
fn different_executors_share_one_entry_point() {
    let mut a = InlineCommandExecutorImpl::new(Countdown { suspensions: 2, runs: 0 });
    let mut b = InlineCommandExecutorImpl::new(Failing { label: *b"fail" });
    let mut da: InlineDynCommandExecutor<'_> = InlineDynCommandExecutor::<dyn InlineCommandExecutor>::new(&mut a);
    let mut db: InlineDynCommandExecutor<'_> = InlineDynCommandExecutor::<dyn InlineCommandExecutor>::new(&mut b);
    assert_eq!(drive(&mut da), Ok(()));
    assert_eq!(drive(&mut db), Err(Error::ArgumentParseError));
}

#[test]
fn adapter_is_idle_again_after_completion() {
    let mut a = InlineCommandExecutorImpl::new(Countdown { suspensions: 1, runs: 0 });
    assert!(!a.is_in_flight());
    a.begin_execute();
    assert!(a.is_in_flight());
    assert_eq!(a.poll_execute(), Step::Pending);
    assert!(a.is_in_flight());
    assert_eq!(a.poll_execute(), Step::Done(Ok(())));
    assert!(!a.is_in_flight());
    // A second execution starts from a fresh suspended state.
    a.begin_execute();
    assert_eq!(a.poll_execute(), Step::Pending);
    assert_eq!(a.poll_execute(), Step::Done(Ok(())));
    assert!(!a.is_in_flight());
    assert_eq!(a.executor().runs, 2);
}

#[test]
fn bounded_run_reports_unfinished_execution() {
    let mut a = InlineCommandExecutorImpl::new(Countdown { suspensions: 5, runs: 0 });
    {
        let mut d = InlineDynCommandExecutor::<dyn InlineCommandExecutor>::new(&mut a);
        assert_eq!(d.run(3), None);
    }
    assert!(a.is_in_flight());
    let mut b = InlineCommandExecutorImpl::new(Countdown { suspensions: 5, runs: 0 });
    let mut d = InlineDynCommandExecutor::<dyn InlineCommandExecutor>::new(&mut b);
    assert_eq!(d.run(6), Some(Ok(())));
    assert_eq!(d.run(6), Some(Ok(())));
    assert!(!d.is_in_flight());
    let mut c = InlineCommandExecutorImpl::new(Failing { label: *b"once" });
    let mut d = InlineDynCommandExecutor::<dyn InlineCommandExecutor>::new(&mut c);
    assert_eq!(d.run(0), None);
    assert!(d.is_in_flight());
    assert_eq!(d.poll(), Step::Done(Err(Error::ArgumentParseError)));
}

#[test]
fn adapter_steps_its_executor_directly() {
    let mut a = InlineCommandExecutorImpl::new(Countdown { suspensions: 1, runs: 0 });
    a.start();
    assert_eq!(a.executor().runs, 1);
    assert_eq!(a.step(), Step::Pending);
    assert_eq!(a.step(), Step::Done(Ok(())));
    assert!(!a.is_in_flight());
    a.start();
    assert_eq!(a.executor().runs, 2);
    assert!(a.is_in_flight());
}
