use std::collections::BTreeSet;

use deployer_lib::layout::{DirPrep, WritePlan};
use deployer_lib::params::ParamsError;
use deployer_lib::pipeline::{LayoutError, ParamsLoad, Pipeline, PipelineError, PipelineEvent, Stage};
use deployer_lib::resolver::ResolveError;

/// Carries out a write plan on a set of paths.
fn carry_out(fs: &mut BTreeSet<String>, plan: &WritePlan) {
    match plan.prep {
        DirPrep::Create => {
            fs.insert(plan.dir.clone());
        }
        DirPrep::Rename => {
            let prefix = format!("{}/", plan.from_dir);
            let moved: Vec<String> = fs
                .iter()
                .filter(|q| **q == plan.from_dir || q.starts_with(&prefix))
                .cloned()
                .collect();
            for q in moved {
                fs.remove(&q);
                fs.insert(format!("{}{}", plan.dir, &q[plan.from_dir.len()..]));
            }
        }
        DirPrep::Keep => {}
    }
    fs.insert(plan.file_path.clone());
}

fn ready_to_deploy(fs: &mut BTreeSet<String>) -> Pipeline {
    let mut p = Pipeline::new("/w", "/w/programs/p", "local", "2025-01-02_03:04:05", None);
    assert_eq!(p.stage, Stage::CheckLayout);
    p.advance(PipelineEvent::LayoutChecked { programs_dir: true, program_dir: true });
    assert_eq!(p.stage, Stage::ResolveConfig);
    p.advance(PipelineEvent::ConfigResolved(Ok(())));
    assert_eq!(p.stage, Stage::ReadParams);
    assert_eq!(p.params_file, "/w/programs/p/program_params/local.toml");
    p.advance(PipelineEvent::ParamsRead(ParamsLoad::Loaded));
    assert_eq!(p.stage, Stage::BuildDescriptor);
    p.advance(PipelineEvent::DescriptorBuilt(Ok(())));
    assert_eq!(p.stage, Stage::CheckRawDir);
    let present = fs.contains(&p.output.current);
    p.advance(PipelineEvent::OutputDirChecked(present));
    assert_eq!(p.stage, Stage::WriteRaw);
    let plan = p.plan.clone().unwrap();
    assert_eq!(plan.prep, DirPrep::Create);
    assert_eq!(
        plan.file_path,
        "/w/programs/p/output/local-2025-01-02_03:04:05/raw-program-config.json"
    );
    carry_out(fs, &plan);
    p.advance(PipelineEvent::ArtifactWritten(Ok(())));
    assert_eq!(p.stage, Stage::Deploy);
    p
}

#[test]
fn successful_run_renames_output_to_success() {
    let mut fs = BTreeSet::new();
    let mut p = ready_to_deploy(&mut fs);
    let raw_plan = p.plan.clone().unwrap();
    p.advance(PipelineEvent::Deployed(Ok(())));
    assert_eq!(p.stage, Stage::CheckSuccessDir);
    assert_eq!(p.plan.as_ref().unwrap().file_path, raw_plan.file_path);
    let present = fs.contains(&p.output.current);
    p.advance(PipelineEvent::OutputDirChecked(present));
    assert_eq!(p.stage, Stage::WriteSuccess);
    let plan = p.plan.clone().unwrap();
    assert_eq!(plan.prep, DirPrep::Rename);
    carry_out(&mut fs, &plan);
    p.advance(PipelineEvent::ArtifactWritten(Ok(())));
    assert_eq!(p.stage, Stage::ShowSummary);
    p.advance(PipelineEvent::SummaryShown);
    assert!(matches!(p.finish(), Some(Ok(()))));

    let base = "/w/programs/p/output/local-2025-01-02_03:04:05";
    assert!(fs.contains(&format!("{}-success/instantiated-program-config.json", base)));
    assert!(fs.contains(&format!("{}-success/raw-program-config.json", base)));
    assert!(!fs.contains(base));
    assert!(fs.iter().all(|q| !q.starts_with(&format!("{}/", base))));
}

#[test]
fn failed_deploy_writes_debug_then_reports_engine_error() {
    let mut fs = BTreeSet::new();
    let mut p = ready_to_deploy(&mut fs);
    p.advance(PipelineEvent::Deployed(Err("insufficient funds".to_string())));
    assert_eq!(p.stage, Stage::CheckFailDir);
    let present = fs.contains(&p.output.current);
    p.advance(PipelineEvent::OutputDirChecked(present));
    assert_eq!(p.stage, Stage::WriteFail);
    let plan = p.plan.clone().unwrap();
    carry_out(&mut fs, &plan);
    p.advance(PipelineEvent::ArtifactWritten(Ok(())));
    assert_eq!(p.stage, Stage::Done);
    match p.finish() {
        Some(Err(PipelineError::Deploy(m))) => assert_eq!(m, "insufficient funds"),
        other => panic!("unexpected {:?}", other),
    }
    let base = "/w/programs/p/output/local-2025-01-02_03:04:05";
    assert!(fs.contains(&format!("{}-fail/debug-program-config.json", base)));
    assert!(!fs.contains(base));
}

#[test]
fn debug_write_failure_is_an_io_error() {
    let mut fs = BTreeSet::new();
    let mut p = ready_to_deploy(&mut fs);
    p.advance(PipelineEvent::Deployed(Err("refused".to_string())));
    p.advance(PipelineEvent::OutputDirChecked(true));
    p.advance(PipelineEvent::ArtifactWritten(Err("disk full".to_string())));
    match p.finish() {
        Some(Err(PipelineError::Io(m))) => assert_eq!(m, "disk full"),
        other => panic!("unexpected {:?}", other),
    }
}

#[test]
fn layout_errors_stop_before_anything_else() {
    let mut p = Pipeline::new("/w", "/w/programs/p", "local", "ts", None);
    assert_eq!(p.programs_dir, "/w/programs");
    p.advance(PipelineEvent::LayoutChecked { programs_dir: false, program_dir: true });
    assert!(p.plan.is_none());
    assert!(matches!(
        p.finish(),
        Some(Err(PipelineError::WorkspaceLayout(LayoutError::MissingProgramsDir)))
    ));

    let mut p = Pipeline::new("/w", "/w/programs/p", "local", "ts", None);
    p.advance(PipelineEvent::LayoutChecked { programs_dir: true, program_dir: false });
    assert!(matches!(
        p.finish(),
        Some(Err(PipelineError::WorkspaceLayout(LayoutError::MissingProgram)))
    ));
}

#[test]
fn resolution_failure_is_fatal_and_silent() {
    let mut p = Pipeline::new("/w", "/w/programs/p", "ghost", "ts", None);
    p.advance(PipelineEvent::LayoutChecked { programs_dir: true, program_dir: true });
    p.advance(PipelineEvent::ConfigResolved(Err(ResolveError::EnvironmentNotFound(
        "ghost".to_string(),
    ))));
    assert!(p.plan.is_none());
    match p.finish() {
        Some(Err(PipelineError::Resolve(ResolveError::EnvironmentNotFound(n)))) => {
            assert_eq!(n, "ghost")
        }
        other => panic!("unexpected {:?}", other),
    }
}

#[test]
fn missing_params_file_names_environment() {
    let mut p = Pipeline::new("/w", "/w/programs/p", "testnet", "ts", None);
    p.advance(PipelineEvent::LayoutChecked { programs_dir: true, program_dir: true });
    p.advance(PipelineEvent::ConfigResolved(Ok(())));
    p.advance(PipelineEvent::ParamsRead(ParamsLoad::Missing));
    match p.finish() {
        Some(Err(PipelineError::Params(ParamsError::NotFound(env)))) => assert_eq!(env, "testnet"),
        other => panic!("unexpected {:?}", other),
    }
}

#[test]
fn builder_failure_stops_before_raw_snapshot() {
    let mut p = Pipeline::new("/w", "/w/programs/p", "testnet", "ts", None);
    p.advance(PipelineEvent::LayoutChecked { programs_dir: true, program_dir: true });
    p.advance(PipelineEvent::ConfigResolved(Ok(())));
    p.advance(PipelineEvent::ParamsRead(ParamsLoad::Loaded));
    p.advance(PipelineEvent::DescriptorBuilt(Err(ParamsError::KeyNotFound("owner".to_string()))));
    assert!(p.plan.is_none());
    match p.finish() {
        Some(Err(PipelineError::Params(ParamsError::KeyNotFound(k)))) => assert_eq!(k, "owner"),
        other => panic!("unexpected {:?}", other),
    }
}

#[test]
fn descriptor_file_skips_parameters() {
    let mut p = Pipeline::new("/w", "/w/programs/p", "local", "ts", Some("/tmp/d.json".to_string()));
    p.advance(PipelineEvent::LayoutChecked { programs_dir: true, program_dir: true });
    p.advance(PipelineEvent::ConfigResolved(Ok(())));
    assert_eq!(p.stage, Stage::ReadDescriptor);
    p.advance(PipelineEvent::DescriptorRead(Err("expected value at line 1".to_string())));
    match p.finish() {
        Some(Err(PipelineError::DescriptorParse(m))) => assert_eq!(m, "expected value at line 1"),
        other => panic!("unexpected {:?}", other),
    }

    let mut p = Pipeline::new("/w", "/w/programs/p", "local", "ts", Some("/tmp/d.json".to_string()));
    p.advance(PipelineEvent::LayoutChecked { programs_dir: true, program_dir: true });
    p.advance(PipelineEvent::ConfigResolved(Ok(())));
    p.advance(PipelineEvent::DescriptorRead(Ok(())));
    assert_eq!(p.stage, Stage::CheckRawDir);
}

#[test]
fn out_of_order_event_ends_run() {
    let mut p = Pipeline::new("/w", "/w/programs/p", "local", "ts", None);
    p.advance(PipelineEvent::Deployed(Ok(())));
    assert!(matches!(p.finish(), Some(Err(PipelineError::UnexpectedEvent))));

    let p = Pipeline::new("/w", "/w/programs/p", "local", "ts", None);
    assert!(p.finish().is_none());
}
