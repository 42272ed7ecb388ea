use deployer_lib::layout::{
    artifact_file_name, join_path, params_file_path, run_output_dir, tagged_output_dir, DirPrep,
    OutputDir, OutputError,
};
use deployer_lib::status::Status;
use deployer_lib::timestamp::RunTimestamp;

#[test]
fn status_labels() {
    assert_eq!(Status::Process.label(), "process");
    assert_eq!(Status::Success.label(), "success");
    assert_eq!(Status::Fail.label(), "fail");
    assert!(!Status::Process.is_terminal());
    assert!(Status::Success.is_terminal());
    assert!(Status::Fail.is_terminal());
}

#[test]
fn timestamp_label_is_zero_padded() {
    let t = RunTimestamp { year: 2025, month: 3, day: 7, hour: 4, minute: 5, second: 9 };
    assert_eq!(t.label(), Some("2025-03-07_04:05:09".to_string()));
    let t = RunTimestamp { year: 987, month: 12, day: 31, hour: 23, minute: 59, second: 59 };
    assert_eq!(t.label(), Some("0987-12-31_23:59:59".to_string()));
}

#[test]
fn timestamp_label_signs_years_outside_four_digits() {
    let t = RunTimestamp { year: 10000, month: 1, day: 1, hour: 0, minute: 0, second: 0 };
    assert_eq!(t.label(), Some("+10000-01-01_00:00:00".to_string()));
    let t = RunTimestamp { year: -1, month: 1, day: 1, hour: 0, minute: 0, second: 0 };
    assert_eq!(t.label(), Some("-0001-01-01_00:00:00".to_string()));
    let t = RunTimestamp { year: -123456, month: 6, day: 15, hour: 12, minute: 30, second: 1 };
    assert_eq!(t.label(), Some("-123456-06-15_12:30:01".to_string()));
    let t = RunTimestamp { year: 0, month: 1, day: 1, hour: 0, minute: 0, second: 0 };
    assert_eq!(t.label(), Some("0000-01-01_00:00:00".to_string()));
}

#[test]
fn timestamp_label_refuses_fields_out_of_range() {
    let t = RunTimestamp { year: 2025, month: 13, day: 1, hour: 0, minute: 0, second: 0 };
    assert_eq!(t.label(), None);
    let t = RunTimestamp { year: 2025, month: 1, day: 0, hour: 0, minute: 0, second: 0 };
    assert_eq!(t.label(), None);
    let t = RunTimestamp { year: 2025, month: 1, day: 1, hour: 24, minute: 0, second: 0 };
    assert_eq!(t.label(), None);
}

#[test]
fn current_time_has_a_label() {
    let now = RunTimestamp::now().expect("the clock reads after the Unix epoch");
    let label = now.label().expect("the current time is in range");
    assert_eq!(label.len(), 19);
    assert!(now.year >= 2024);
}

#[test]
fn path_building() {
    assert_eq!(join_path("/w", "programs"), "/w/programs");
    assert_eq!(artifact_file_name("raw"), "raw-program-config.json");
    assert_eq!(
        run_output_dir("/w/programs/p", "mainnet", "2025-01-02_03:04:05"),
        "/w/programs/p/output/mainnet-2025-01-02_03:04:05"
    );
    assert_eq!(tagged_output_dir("/o/local-ts", Status::Success), "/o/local-ts-success");
    assert_eq!(tagged_output_dir("/o/local-ts", Status::Fail), "/o/local-ts-fail");
    assert_eq!(params_file_path("/w/programs/p", "testnet"), "/w/programs/p/program_params/testnet.toml");
}

#[test]
fn missing_output_dir_is_created_not_renamed() {
    let mut out = OutputDir::new("/o/local-ts".to_string());
    let plan = out.plan_write(false, Status::Process, "raw").unwrap();
    assert_eq!(plan.prep, DirPrep::Create);
    assert_eq!(plan.dir, "/o/local-ts");
    assert_eq!(plan.file_path, "/o/local-ts/raw-program-config.json");
    assert_eq!(out.finished, None);

    // A terminal write into a directory that is missing creates it as it is.
    let plan = out.plan_write(false, Status::Success, "instantiated").unwrap();
    assert_eq!(plan.prep, DirPrep::Create);
    assert_eq!(plan.dir, "/o/local-ts");
    assert_eq!(out.finished, Some(Status::Success));
}

#[test]
fn terminal_write_renames_once() {
    let mut out = OutputDir::new("/o/local-ts".to_string());
    let raw = out.plan_write(true, Status::Process, "raw").unwrap();
    assert_eq!(raw.prep, DirPrep::Keep);
    assert_eq!(raw.dir, "/o/local-ts");

    let done = out.plan_write(true, Status::Success, "instantiated").unwrap();
    assert_eq!(done.prep, DirPrep::Rename);
    assert_eq!(done.from_dir, "/o/local-ts");
    assert_eq!(done.dir, "/o/local-ts-success");
    assert_eq!(done.file_path, "/o/local-ts-success/instantiated-program-config.json");
    assert_eq!(out.current, "/o/local-ts-success");

    // Later non-terminal writes go to the renamed directory.
    let extra = out.plan_write(true, Status::Process, "raw").unwrap();
    assert_eq!(extra.prep, DirPrep::Keep);
    assert_eq!(extra.dir, "/o/local-ts-success");

    // A second terminal write is refused and changes nothing.
    let again = out.plan_write(true, Status::Fail, "debug");
    assert!(matches!(again, Err(OutputError::AlreadyFinished)));
    assert_eq!(out.current, "/o/local-ts-success");
    assert_eq!(out.finished, Some(Status::Success));
}
