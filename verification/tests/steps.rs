use anki_sync::error::AnkiError;
use anki_sync::steps::{StepCall, Steps};

/// Carries out the steps, of which the one at `fails_at` fails.
fn carry_out(steps: Steps<u32>, fails_at: u32) -> (Vec<u32>, Result<(), AnkiError>) {
    let mut tried: Vec<u32> = vec![];
    let mut call = steps.go_on();
    loop {
        call = match call {
            StepCall::Do { op, then } => {
                tried.push(op);
                if op == fails_at {
                    then.resume(Err(AnkiError::DBError { info: format!("at {}", op) }))
                } else {
                    then.resume(Ok(()))
                }
            }
            StepCall::Finished => return (tried, Ok(())),
            StepCall::Failed(e) => return (tried, Err(e)),
        };
    }
}

#[test]
fn steps_are_carried_out_in_order() {
    let (tried, result) = carry_out(Steps::new(vec![3, 1, 2]), 9);
    assert_eq!(tried, vec![3, 1, 2]);
    assert!(result.is_ok());
    let (tried, result) = carry_out(Steps::new(vec![]), 9);
    assert_eq!(tried.len(), 0);
    assert!(result.is_ok());
}

#[test]
fn steps_go_up_to_the_first_error() {
    let (tried, result) = carry_out(Steps::new(vec![3, 1, 2]), 1);
    assert_eq!(tried, vec![3, 1]);
    match result {
        Err(AnkiError::DBError { info }) => assert_eq!(info, "at 1"),
        other => panic!("{:?}", other),
    }
}
