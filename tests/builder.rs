use docbuilder::batch::BatchProgress;
use docbuilder::command::{
    cargo_args, prepare_command, relocation, rustdoc_extra_flags, rustdoc_flags, staging_dir,
    to_underscored,
};
use docbuilder::config::{BuilderConfig, ConfigError};
use docbuilder::coverage::{is_object_line, BuildOutcome, CoverageTally, DocCoverage, FileCoverage};
use docbuilder::essential::{essential_file_names, versioned_file_name};
use docbuilder::pipeline::{
    classify_build, limit_targets, BuildCounter, PackagePipeline, PipelineAction, PipelineEvent,
    Stage,
};
use docbuilder::reconcile::{contains_target, plan_toolchain_update, ToolchainStep};
use docbuilder::targets::{host_target, resolve_targets, tier_one_targets};
use docbuilder::toolchain::{
    needs_essential_files, parse_version_output, ToolchainError, ToolchainState,
};

fn strings(xs: &[&str]) -> Vec<String> {
    xs.iter().map(|s| s.to_string()).collect()
}

fn installed_after(installed: &[&str], plan: &[ToolchainStep]) -> Vec<String> {
    let mut set: Vec<String> = strings(installed);
    for step in plan {
        match step {
            ToolchainStep::RemoveTarget(t) => set.retain(|x| x != t),
            ToolchainStep::AddTarget(t) => {
                if !set.contains(t) {
                    set.push(t.clone())
                }
            }
            _ => {}
        }
    }
    set.sort();
    set
}

#[test]
fn reconcile_reaches_desired_set() {
    let installed = ["a", "b", "c"];
    let desired = ["b", "d", "e"];
    let plan = plan_toolchain_update(&strings(&installed), &strings(&desired));
    let mut want = strings(&desired);
    want.sort();
    assert_eq!(installed_after(&installed, &plan), want);
}

#[test]
fn reconcile_from_nothing_installed() {
    let plan = plan_toolchain_update(&Vec::new(), &strings(&["x", "y"]));
    assert_eq!(plan.len(), 4);
    assert!(matches!(&plan[0], ToolchainStep::InstallToolchain));
    assert!(matches!(&plan[1], ToolchainStep::AddTarget(t) if t == "x"));
    assert!(matches!(&plan[2], ToolchainStep::AddTarget(t) if t == "y"));
    assert!(matches!(&plan[3], ToolchainStep::AddComponent(c) if c == "rustfmt"));
}

#[test]
fn reconcile_removes_before_adding() {
    let plan = plan_toolchain_update(&strings(&["old1", "keep", "old2"]), &strings(&["keep", "new"]));
    assert!(matches!(&plan[0], ToolchainStep::RemoveTarget(t) if t == "old1"));
    assert!(matches!(&plan[1], ToolchainStep::RemoveTarget(t) if t == "old2"));
    assert!(matches!(&plan[2], ToolchainStep::InstallToolchain));
    assert!(matches!(&plan[3], ToolchainStep::AddTarget(t) if t == "new"));
    assert!(matches!(&plan[4], ToolchainStep::AddComponent(_)));
    assert_eq!(plan.len(), 5);
}

#[test]
fn reconcile_when_already_converged() {
    let plan = plan_toolchain_update(&strings(&["a", "b"]), &strings(&["b", "a"]));
    assert_eq!(plan.len(), 2);
    assert!(matches!(&plan[0], ToolchainStep::InstallToolchain));
}

#[test]
fn contains_target_compares_text() {
    assert!(contains_target(&strings(&["a", "b"]), &"b".to_string()));
    assert!(!contains_target(&strings(&["a", "b"]), &"c".to_string()));
}

#[test]
fn version_probe_single_line() {
    let lines = strings(&["rustc 1.50.0-nightly (abc 2020-12-01)"]);
    assert_eq!(
        parse_version_output(&lines),
        Ok("rustc 1.50.0-nightly (abc 2020-12-01)".to_string())
    );
}

#[test]
fn version_probe_no_line_is_error() {
    assert_eq!(parse_version_output(&Vec::new()), Err(ToolchainError::InvalidVersionOutput));
}

#[test]
fn version_probe_two_lines_is_error() {
    let lines = strings(&["rustc 1.50.0", "extra"]);
    assert_eq!(parse_version_output(&lines), Err(ToolchainError::InvalidVersionOutput));
}

#[test]
fn essential_files_follow_version_changes() {
    assert!(needs_essential_files(&None, &"v1".to_string()));
    assert!(needs_essential_files(&Some("v1".to_string()), &"v2".to_string()));
    assert!(!needs_essential_files(&Some("v1".to_string()), &"v1".to_string()));
    let mut state = ToolchainState::new();
    assert!(state.record_version("v1".to_string()));
    assert!(!state.record_version("v1".to_string()));
    assert!(state.record_version("v2".to_string()));
    assert_eq!(state.version, Some("v2".to_string()));
}

#[test]
fn essential_file_names_are_stable_per_version() {
    let first = essential_file_names(&"20201201-1.50.0-nightly-abc".to_string());
    let second = essential_file_names(&"20201201-1.50.0-nightly-abc".to_string());
    assert_eq!(first, second);
    assert_eq!(first.len(), 23);
    assert_eq!(first[0], "brush-20201201-1.50.0-nightly-abc.svg");
    assert_eq!(first[13], "source-script-20201201-1.50.0-nightly-abc.js");
    assert_eq!(first[22], "SourceSerifPro-It.ttf.woff");
    let other = essential_file_names(&"20201202-1.50.0-nightly-def".to_string());
    assert_ne!(first, other);
}

#[test]
fn versioned_name_splits_at_last_dot() {
    assert_eq!(versioned_file_name("a.b.css", "v9"), "a.b-v9.css");
    assert_eq!(versioned_file_name("rust-logo.png", "1"), "rust-logo-1.png");
}

#[test]
fn coverage_aggregates_lines() {
    assert!(is_object_line(r#"{"a.rs":{"total":3,"with_docs":2}}"#));
    assert!(is_object_line(r#"{"b.rs":{"total":1,"with_docs":0}}"#));
    let mut tally = CoverageTally::new();
    assert!(tally.add_line(&vec![FileCoverage { total: 3, with_docs: 2 }]));
    assert!(tally.add_line(&vec![FileCoverage { total: 1, with_docs: 0 }]));
    assert_eq!(tally.finish(), Some(DocCoverage { total_items: 4, documented_items: 2 }));
}

#[test]
fn coverage_skips_incomplete_lines() {
    assert!(!is_object_line("warning: something"));
    assert!(!is_object_line(r#"{"a.rs":{"total":3"#));
    assert!(!is_object_line(""));
    assert!(!is_object_line("{"));
    assert!(is_object_line("{}"));
}

#[test]
fn coverage_all_zero_is_no_data() {
    let mut tally = CoverageTally::new();
    assert_eq!(tally.finish(), None);
    assert!(tally.add_line(&vec![FileCoverage { total: 0, with_docs: 0 }]));
    assert_eq!(tally.finish(), None);
}

#[test]
fn coverage_overflow_leaves_tally() {
    let mut tally = CoverageTally::new();
    assert!(tally.add_line(&vec![FileCoverage { total: i32::MAX, with_docs: 1 }]));
    assert!(!tally.add_line(&vec![
        FileCoverage { total: 0, with_docs: 1 },
        FileCoverage { total: 1, with_docs: 0 },
    ]));
    assert_eq!(tally.total_items, i32::MAX);
    assert_eq!(tally.documented_items, 1);
}

fn run_until_default_build(pipeline: &mut PackagePipeline, others: &[&str], limit: usize) {
    assert!(matches!(pipeline.step(PipelineEvent::Checked(true)), PipelineAction::CheckBlacklist));
    assert!(matches!(pipeline.step(PipelineEvent::Checked(false)), PipelineAction::UpdateToolchain));
    assert!(matches!(pipeline.step(PipelineEvent::Done), PipelineAction::LoadLimits));
    assert!(matches!(pipeline.step(PipelineEvent::LimitsLoaded(limit)), PipelineAction::Prepare));
    let a = pipeline.step(PipelineEvent::Prepared {
        default_target: "x86_64-unknown-linux-gnu".to_string(),
        other_targets: strings(others),
    });
    assert!(matches!(a, PipelineAction::BuildDefault(t) if t == "x86_64-unknown-linux-gnu"));
}

#[test]
fn pipeline_failed_build_is_archived_and_counted() {
    let (mut p, first) = PackagePipeline::new();
    assert!(matches!(first, PipelineAction::CheckShouldBuild));
    run_until_default_build(&mut p, &["a", "b"], 10);
    let a = p.step(PipelineEvent::DefaultBuilt {
        successful: false,
        is_library: true,
        library_docs_exist: false,
    });
    assert!(matches!(a, PipelineAction::ArchiveSources));
    let a = p.step(PipelineEvent::Done);
    assert!(matches!(a, PipelineAction::Count(BuildCounter::FailedLibrary)));
    assert!(matches!(p.step(PipelineEvent::Done), PipelineAction::Persist));
    assert!(!p.default_successful);
    assert!(!p.has_docs);
    assert!(matches!(p.step(PipelineEvent::Done), PipelineAction::CleanUp));
    assert!(matches!(p.step(PipelineEvent::Done), PipelineAction::Finish(Some(false))));
    assert_eq!(p.stage, Stage::Finished);
}

#[test]
fn pipeline_fan_out_is_bounded_and_ordered() {
    let (mut run, _) = PackagePipeline::new();
    run.step(PipelineEvent::Checked(true));
    run.step(PipelineEvent::Checked(false));
    run.step(PipelineEvent::Done);
    assert!(matches!(run.step(PipelineEvent::LimitsLoaded(2)), PipelineAction::Prepare));
    run.step(PipelineEvent::Prepared {
        default_target: "x86_64-unknown-linux-gnu".to_string(),
        other_targets: strings(&["t1", "t2", "t3", "t4"]),
    });
    let a = run.step(PipelineEvent::DefaultBuilt {
        successful: true,
        is_library: true,
        library_docs_exist: true,
    });
    assert!(matches!(a, PipelineAction::CopyDefaultDocs));
    let a = run.step(PipelineEvent::Done);
    assert!(matches!(a, PipelineAction::BuildTarget(t) if t == "t1"));
    let a = run.step(PipelineEvent::TargetBuilt { successful: true, docs_exist: false });
    assert!(matches!(a, PipelineAction::BuildTarget(t) if t == "t2"));
    let a = run.step(PipelineEvent::TargetBuilt { successful: true, docs_exist: true });
    assert!(matches!(a, PipelineAction::UploadDocs));
    assert_eq!(run.successful_targets, strings(&["x86_64-unknown-linux-gnu", "t2"]));
    assert!(matches!(run.step(PipelineEvent::Done), PipelineAction::ArchiveSources));
    assert!(matches!(run.step(PipelineEvent::Done), PipelineAction::Count(BuildCounter::Successful)));
    assert!(matches!(run.step(PipelineEvent::Done), PipelineAction::Persist));
    assert!(matches!(run.step(PipelineEvent::Done), PipelineAction::CleanUp));
    assert!(matches!(run.step(PipelineEvent::Done), PipelineAction::Finish(Some(true))));
}

#[test]
fn pipeline_cleans_up_after_failure() {
    let (mut p, _) = PackagePipeline::new();
    run_until_default_build(&mut p, &[], 5);
    assert!(matches!(p.step(PipelineEvent::Failed), PipelineAction::CleanUp));
    assert!(matches!(p.step(PipelineEvent::Done), PipelineAction::Finish(None)));
    assert!(matches!(p.step(PipelineEvent::Done), PipelineAction::Finish(None)));
}

#[test]
fn pipeline_cleans_up_once_on_success() {
    let (mut p, _) = PackagePipeline::new();
    run_until_default_build(&mut p, &[], 5);
    let mut cleanups = 0;
    let mut a = p.step(PipelineEvent::DefaultBuilt {
        successful: true,
        is_library: false,
        library_docs_exist: false,
    });
    loop {
        match a {
            PipelineAction::Finish(r) => {
                assert_eq!(r, Some(true));
                break;
            }
            PipelineAction::CleanUp => cleanups += 1,
            _ => {}
        }
        a = p.step(PipelineEvent::Done);
    }
    assert_eq!(cleanups, 1);
}

#[test]
fn pipeline_skips_when_not_needed_or_blacklisted() {
    let (mut p, _) = PackagePipeline::new();
    assert!(matches!(p.step(PipelineEvent::Checked(false)), PipelineAction::Finish(Some(false))));
    let (mut q, _) = PackagePipeline::new();
    q.step(PipelineEvent::Checked(true));
    assert!(matches!(q.step(PipelineEvent::Checked(true)), PipelineAction::Finish(Some(false))));
    assert_eq!(q.stage, Stage::Finished);
    let (mut r, _) = PackagePipeline::new();
    r.step(PipelineEvent::Checked(true));
    r.step(PipelineEvent::Checked(false));
    assert!(matches!(r.step(PipelineEvent::Failed), PipelineAction::Finish(None)));
}

#[test]
fn pipeline_cleans_up_when_fetch_fails() {
    let (mut p, _) = PackagePipeline::new();
    p.step(PipelineEvent::Checked(true));
    p.step(PipelineEvent::Checked(false));
    p.step(PipelineEvent::Done);
    assert!(matches!(p.step(PipelineEvent::LimitsLoaded(1)), PipelineAction::Prepare));
    assert!(matches!(p.step(PipelineEvent::Failed), PipelineAction::CleanUp));
    assert!(matches!(p.step(PipelineEvent::Failed), PipelineAction::Finish(None)));
}

#[test]
fn classify_counters() {
    assert_eq!(classify_build(true, true), BuildCounter::Successful);
    assert_eq!(classify_build(true, false), BuildCounter::Successful);
    assert_eq!(classify_build(false, true), BuildCounter::FailedLibrary);
    assert_eq!(classify_build(false, false), BuildCounter::NonLibrary);
}

#[test]
fn limit_targets_takes_prefix() {
    assert_eq!(limit_targets(&strings(&["a", "b", "c"]), 2), strings(&["a", "b"]));
    assert_eq!(limit_targets(&strings(&["a"]), 3), strings(&["a"]));
    assert_eq!(limit_targets(&strings(&["a"]), 0), Vec::<String>::new());
}

#[test]
fn cross_compiled_default_is_relocated() {
    let host = "x86_64-unknown-linux-gnu".to_string();
    let (from, to) = relocation(&"wasm32-unknown-unknown".to_string(), &host, true).unwrap();
    assert_eq!(from, strings(&["wasm32-unknown-unknown", "doc"]));
    assert_eq!(to, strings(&["doc"]));
    assert!(relocation(&host, &host, true).is_none());
    assert!(relocation(&"wasm32-unknown-unknown".to_string(), &host, false).is_none());
}

#[test]
fn staging_layout() {
    assert!(staging_dir(&"t".to_string(), true).is_empty());
    assert_eq!(staging_dir(&"t".to_string(), false), strings(&["t"]));
}

#[test]
fn cargo_args_with_cpu_limit_and_target() {
    let host = "x86_64-unknown-linux-gnu".to_string();
    let args = cargo_args(&strings(&["doc", "--lib"]), Some(12), &"i686-pc-windows-msvc".to_string(), &host);
    assert_eq!(args, strings(&["doc", "--lib", "-j12", "--target", "i686-pc-windows-msvc"]));
    let args = cargo_args(&strings(&["doc"]), None, &host, &host);
    assert_eq!(args, strings(&["doc"]));
    let args = cargo_args(&Vec::new(), Some(0), &host, &host);
    assert_eq!(args, strings(&["-j0"]));
}

#[test]
fn extra_flags_link_dependencies() {
    let deps = vec![("serde-json".to_string(), "1.0.0".to_string())];
    let flags = rustdoc_extra_flags(&deps, &"20201201-1.50.0-nightly-abc".to_string());
    assert_eq!(
        flags,
        strings(&[
            "--extern-html-root-url",
            "serde_json=https://docs.rs/serde-json/1.0.0",
            "--resource-suffix",
            "-20201201-1.50.0-nightly-abc",
        ])
    );
    assert_eq!(to_underscored("a-b-c"), "a_b_c");
}

#[test]
fn rustdoc_flags_concatenate() {
    let flags = rustdoc_flags(&"--cfg docsrs".to_string(), &strings(&["--a", "b"]));
    assert_eq!(flags, "--cfg docsrs -Z unstable-options --static-root-path / --cap-lints warn --a b");
    let flags = rustdoc_flags(&String::new(), &Vec::new());
    assert_eq!(flags, " -Z unstable-options --static-root-path / --cap-lints warn ");
}

#[test]
fn command_keeps_env_and_disables_idle_timeout() {
    let env = vec![
        ("A".to_string(), "1".to_string()),
        ("RUSTDOCFLAGS".to_string(), "--cfg x".to_string()),
        ("B".to_string(), "2".to_string()),
    ];
    let host = host_target();
    let cmd = prepare_command(
        &"aarch64-unknown-linux-gnu".to_string(),
        &host,
        &tier_one_targets(),
        None,
        &strings(&["doc"]),
        &env,
        &strings(&["--x"]),
        900,
    );
    assert!(cmd.install_target);
    assert_eq!(cmd.timeout_secs, 900);
    assert_eq!(cmd.no_output_timeout_secs, None);
    assert_eq!(cmd.cargo_args, strings(&["doc", "--target", "aarch64-unknown-linux-gnu"]));
    assert_eq!(
        cmd.env,
        vec![
            ("A".to_string(), "1".to_string()),
            ("B".to_string(), "2".to_string()),
            (
                "RUSTDOCFLAGS".to_string(),
                "--cfg x -Z unstable-options --static-root-path / --cap-lints warn --x".to_string()
            ),
        ]
    );
    let cmd = prepare_command(&host, &host, &tier_one_targets(), None, &Vec::new(), &Vec::new(), &Vec::new(), 1);
    assert!(!cmd.install_target);
}

#[test]
fn targets_resolve_from_declarations() {
    let host = host_target();
    let t = resolve_targets(None, None, host.clone(), &tier_one_targets());
    assert_eq!(t.default_target, "x86_64-unknown-linux-gnu");
    assert_eq!(t.other_targets.len(), 4);
    assert!(!t.other_targets.contains(&host));
    let t = resolve_targets(None, Some(strings(&["b", "a", "b"])), host.clone(), &tier_one_targets());
    assert_eq!(t.default_target, "b");
    assert_eq!(t.other_targets, strings(&["a"]));
    let t = resolve_targets(Some("c".to_string()), Some(strings(&["a", "c"])), host, &tier_one_targets());
    assert_eq!(t.default_target, "c");
    assert_eq!(t.other_targets, strings(&["a"]));
}

#[test]
fn config_defaults_and_cpu_limit() {
    let c = BuilderConfig::from_settings(None, None, None, None, Some("4".to_string())).ok().unwrap();
    assert_eq!(c.workspace_path, ".rustwide");
    assert_eq!(c.toolchain, "nightly");
    assert_eq!(c.cpu_limit, Some(4));
    assert!(!c.inside_docker);
    let c = BuilderConfig::from_settings(
        Some("/w".to_string()),
        Some("true".to_string()),
        Some("img".to_string()),
        Some("stable".to_string()),
        None,
    )
    .ok()
    .unwrap();
    assert_eq!(c.workspace_path, "/w");
    assert!(c.inside_docker);
    assert_eq!(c.sandbox_image, Some("img".to_string()));
    assert_eq!(c.toolchain, "stable");
    assert_eq!(c.cpu_limit, None);
    assert!(matches!(
        BuilderConfig::from_settings(None, None, None, None, Some("many".to_string())),
        Err(ConfigError::InvalidCpuLimit)
    ));
}

#[test]
fn batch_saves_every_tenth_success() {
    let mut b = BatchProgress::new();
    for _ in 0..9 {
        assert!(!b.record(Some(true)));
    }
    assert!(!b.record(None));
    assert!(b.record(Some(true)));
    assert_eq!(b.processed, 10);
    for _ in 0..9 {
        b.record(Some(false));
    }
    assert!(!b.record(Some(false)));
    assert_eq!(b.processed, 20);
}

#[test]
fn coverage_only_on_successful_outcome() {
    let cov = Some(DocCoverage { total_items: 4, documented_items: 2 });
    let ok = BuildOutcome::new(true, "log".to_string(), "rustc".to_string(), "docsrs".to_string(), cov);
    assert_eq!(ok.doc_coverage, cov);
    let failed = BuildOutcome::new(false, "log".to_string(), "rustc".to_string(), "docsrs".to_string(), cov);
    assert_eq!(failed.doc_coverage, None);
    assert!(!failed.successful);
    assert_eq!(failed.build_log, "log");
}
