use ark_wallet::persist::{first_step, fresh_temp_name, is_finished, next_step, temp_file_name, WriteStep};

fn run(outcomes: &[bool]) -> Vec<WriteStep> {
    let mut steps = vec![first_step()];
    let mut s = first_step();
    for &ok in outcomes {
        if is_finished(s) {
            break;
        }
        s = next_step(s, ok);
        steps.push(s);
    }
    steps
}

#[test]
fn successful_write_visits_every_step() {
    let steps = run(&[true; 12]);
    assert_eq!(
        steps,
        vec![
            WriteStep::CreateDir,
            WriteStep::CreateTemp,
            WriteStep::RestrictTemp,
            WriteStep::WriteAll,
            WriteStep::Flush,
            WriteStep::SyncFile,
            WriteStep::Rename,
            WriteStep::SyncDir,
            WriteStep::RestrictFinal,
            WriteStep::Resolve,
            WriteStep::Done,
        ]
    );
}

#[test]
fn interrupted_before_rename_never_touches_destination() {
    for fail_at in 3..6 {
        let mut outcomes = vec![true; 12];
        outcomes[fail_at] = false;
        let steps = run(&outcomes);
        assert!(!steps.contains(&WriteStep::Rename));
        assert_eq!(steps[steps.len() - 2], WriteStep::RemoveTemp);
        assert_eq!(*steps.last().unwrap(), WriteStep::Failed);
    }
}

#[test]
fn failed_rename_removes_temp() {
    let mut outcomes = vec![true; 12];
    outcomes[6] = false;
    let steps = run(&outcomes);
    assert_eq!(steps[6], WriteStep::Rename);
    assert_eq!(steps[7], WriteStep::RemoveTemp);
    assert_eq!(steps[8], WriteStep::Failed);
}

#[test]
fn best_effort_steps_ignore_failure() {
    let mut outcomes = vec![true; 12];
    outcomes[2] = false;
    outcomes[7] = false;
    outcomes[8] = false;
    assert_eq!(*run(&outcomes).last().unwrap(), WriteStep::Done);
}

#[test]
fn failure_before_temp_exists_skips_cleanup() {
    assert_eq!(run(&[false]), vec![WriteStep::CreateDir, WriteStep::Failed]);
    assert_eq!(run(&[true, false]), vec![WriteStep::CreateDir, WriteStep::CreateTemp, WriteStep::Failed]);
}

#[test]
fn temp_name_format() {
    let mut suffix = [0u8; 16];
    suffix[15] = 0xab;
    assert_eq!(temp_file_name("ks.json", &suffix), ".ks.json.tmp.000000000000000000000000000000ab");
    let a = fresh_temp_name("ks.json").unwrap();
    let b = fresh_temp_name("ks.json").unwrap();
    assert!(a.starts_with(".ks.json.tmp."));
    assert_eq!(a.len(), ".ks.json.tmp.".len() + 32);
    assert_ne!(a, b);
}
