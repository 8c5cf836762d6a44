use dotctl::appconf::join_paths;
use dotctl::appconf::resolve_path_with;
use dotctl::appconf::LinkResolutionError;
use dotctl::appconf::ResolveWithHomeDirectory;
use dotctl::appconf::ResolveWithParentDirectory;
use dotctl::config::AppconfSearchError;
use dotctl::config::ConfigSpec;
use dotctl::config::ConfigStatus;
use dotctl::config::DotfileConfiguration;
use dotctl::config::DotfileOptions;
use dotctl::hooks::HookError;
use dotctl::hooks::HookExecutionTime;
use dotctl::hooks::HookOutcome;
use dotctl::hooks::HookRun;
use dotctl::hooks::HookSpec;
use dotctl::hooks::classify_outcome;
use dotctl::hooks::hooks_for_phase;
use dotctl::lifecycle::EntryRun;
use dotctl::lifecycle::EntryStage;
use dotctl::lifecycle::EntryStep;
use dotctl::links::copy_pairs;
use dotctl::links::copy_step;
use dotctl::links::CopyStep;
use dotctl::links::setup_action;
use dotctl::links::setup_link_paths_with;
use dotctl::links::teardown_action;
use dotctl::links::LinkAction;
use dotctl::links::LinkError;
use dotctl::links::LinkMode;
use dotctl::links::LinkSpec;
use dotctl::links::TeardownAction;
use dotctl::links::TeardownError;

fn fixed_home() -> ResolveWithHomeDirectory {
    ResolveWithHomeDirectory::new_with(Some("/home/u".to_string()))
}

#[test]
fn join_inserts_exactly_one_separator() {
    assert_eq!(join_paths("/a", "b"), "/a/b");
    assert_eq!(join_paths("/a/", "b"), "/a/b");
    assert_eq!(join_paths("", "b"), "b");
}

#[test]
fn tilde_resolves_against_given_home() {
    let home = fixed_home();
    let res = resolve_path_with("~/a/b", None, &home);
    assert_eq!(res.unwrap(), "/home/u/a/b");
}

#[test]
fn tilde_without_home_fails() {
    let home = ResolveWithHomeDirectory::new_with(None);
    let res = resolve_path_with("~/a/b", None, &home);
    assert_eq!(res.unwrap_err(), LinkResolutionError::NoHomeDirectoryFound);
}

#[test]
fn tilde_in_parent_is_resolved_again() {
    let home = fixed_home();
    let res = resolve_path_with("a/b", Some("~/cfg"), &home);
    assert_eq!(res.unwrap(), "/home/u/cfg/a/b");
}

#[test]
fn relative_parent_cannot_resolve() {
    let home = fixed_home();
    let res = resolve_path_with("a/b", Some("rel/parent"), &home);
    assert_eq!(res.unwrap_err(), LinkResolutionError::ResolverNotApplicable);
}

#[test]
fn parent_resolver_without_parent_is_not_applicable() {
    let resolver = ResolveWithParentDirectory::new(None);
    let res = resolver.resolve("a/b");
    assert_eq!(res.unwrap_err(), LinkResolutionError::ResolverNotApplicable);
}

#[test]
fn home_resolver_refuses_paths_without_prefix() {
    let home = fixed_home();
    let res = home.resolve("a/b");
    assert_eq!(res.unwrap_err(), LinkResolutionError::NoHomeDirectoryToResolve);
}

#[test]
fn mode_names_parse_in_both_capitalizations() {
    assert_eq!(LinkMode::from_name("Soft"), Some(LinkMode::Soft));
    assert_eq!(LinkMode::from_name("soft"), Some(LinkMode::Soft));
    assert_eq!(LinkMode::from_name("Hard"), Some(LinkMode::Hard));
    assert_eq!(LinkMode::from_name("hard"), Some(LinkMode::Hard));
    assert_eq!(LinkMode::from_name("Copy"), Some(LinkMode::Copy));
    assert_eq!(LinkMode::from_name("copy"), Some(LinkMode::Copy));
    assert_eq!(LinkMode::from_name("sym"), None);
}

#[test]
fn setup_paths_resolve_source_against_repository() {
    let home = fixed_home();
    let spec = LinkSpec::new("zshrc", "~/.zshrc", LinkMode::Soft);
    let plan = setup_link_paths_with(&spec, "/repo", &home).unwrap();
    assert_eq!(plan.source(), "/repo/zshrc");
    assert_eq!(plan.target(), "/home/u/.zshrc");
    assert_eq!(plan.mode(), &LinkMode::Soft);
}

#[test]
fn setup_paths_reject_relative_target() {
    let home = fixed_home();
    let spec = LinkSpec::new("zshrc", ".zshrc", LinkMode::Soft);
    let res = setup_link_paths_with(&spec, "/repo", &home);
    assert_eq!(res.unwrap_err(), LinkResolutionError::ResolverNotApplicable);
}

#[test]
fn setup_requires_an_existing_source() {
    assert_eq!(setup_action(&LinkMode::Soft, false), Err(LinkError::SourceNotFound));
    assert_eq!(setup_action(&LinkMode::Soft, true), Ok(LinkAction::MakeSoftLink));
    assert_eq!(setup_action(&LinkMode::Hard, true), Ok(LinkAction::MakeHardLink));
    assert_eq!(setup_action(&LinkMode::Copy, true), Ok(LinkAction::CopyRecursively));
}

#[test]
fn teardown_dispatches_on_what_stands_at_the_target() {
    assert_eq!(teardown_action(false, false, false), Err(TeardownError::TargetNotFound));
    assert_eq!(teardown_action(true, false, true), Ok(TeardownAction::RemoveTree));
    assert_eq!(teardown_action(true, false, false), Ok(TeardownAction::RemoveFile));
}

#[test]
fn teardown_of_symlink_removes_only_the_link() {
    // Even when the symlink points at a directory, the referent is spared.
    assert_eq!(teardown_action(true, true, true), Ok(TeardownAction::RemoveLinkOnly));
    assert_eq!(teardown_action(true, true, false), Ok(TeardownAction::RemoveLinkOnly));
}

#[test]
fn copy_pairs_keep_relative_structure() {
    let entries = vec!["a.txt".to_string(), "sub/b.txt".to_string()];
    let pairs = copy_pairs("/src", "/dst", &entries);
    assert_eq!(pairs.len(), 2);
    assert_eq!(pairs[0], ("/src/a.txt".to_string(), "/dst/a.txt".to_string()));
    assert_eq!(pairs[1], ("/src/sub/b.txt".to_string(), "/dst/sub/b.txt".to_string()));
}

#[test]
fn phase_names_parse_in_both_spellings() {
    assert_eq!(HookExecutionTime::from_name("presetup"), Some(HookExecutionTime::Presetup));
    assert_eq!(HookExecutionTime::from_name("pre-setup"), Some(HookExecutionTime::Presetup));
    assert_eq!(HookExecutionTime::from_name("postsetup"), Some(HookExecutionTime::Postsetup));
    assert_eq!(HookExecutionTime::from_name("post-setup"), Some(HookExecutionTime::Postsetup));
    assert_eq!(HookExecutionTime::from_name("preteardown"), Some(HookExecutionTime::Preteardown));
    assert_eq!(HookExecutionTime::from_name("pre-teardown"), Some(HookExecutionTime::Preteardown));
    assert_eq!(
        HookExecutionTime::from_name("postteardown"),
        Some(HookExecutionTime::Postteardown)
    );
    assert_eq!(
        HookExecutionTime::from_name("post-teardown"),
        Some(HookExecutionTime::Postteardown)
    );
    assert_eq!(HookExecutionTime::from_name("midway"), None);
}

#[test]
fn errors_explain_themselves() {
    assert_eq!(
        LinkResolutionError::NoHomeDirectoryFound.message(),
        "The `~` symbol could not be resolved to a path"
    );
    assert_eq!(
        LinkResolutionError::NoHomeDirectoryToResolve.message(),
        "Expected to resolve `~` prefix but was not found"
    );
    assert_eq!(
        LinkResolutionError::ResolverNotApplicable.message(),
        "The chosen resolver cannot be applied"
    );
    assert_eq!(AppconfSearchError::NoneFound.message(), "No matching element found");
    assert_eq!(AppconfSearchError::MultipleFound.message(), "Multiple matching elements found");
    assert_eq!(HookError::UndecodableOutput.message(), "Garbage output");
    assert_eq!(HookError::CommandFailed.message(), "Command finished unsuccessfully");
    assert_eq!(HookError::CommandNotStarted.message(), "Command not started");
}

#[test]
fn copy_steps_follow_the_observed_source_kind() {
    assert_eq!(copy_step(true, false), CopyStep::CopyFileBytes);
    assert_eq!(copy_step(true, true), CopyStep::CopyFileBytes);
    assert_eq!(copy_step(false, false), CopyStep::EnterDirectory { create_target: true });
    assert_eq!(copy_step(false, true), CopyStep::EnterDirectory { create_target: false });
}

#[test]
fn commands_split_into_programs_and_arguments() {
    let hook = HookSpec::new(
        vec![
            "echo hello world".to_string(),
            "".to_string(),
            "   ".to_string(),
            "grep 'a b'".to_string(),
            "bad 'quote".to_string(),
        ],
        HookExecutionTime::Presetup,
    );
    let plans = hook.make_commands();
    assert_eq!(plans.len(), 2);
    assert_eq!(plans[0].program(), "echo");
    assert_eq!(plans[0].args(), &vec!["hello".to_string(), "world".to_string()]);
    assert_eq!(plans[1].program(), "grep");
    assert_eq!(plans[1].args(), &vec!["a b".to_string()]);
}

#[test]
fn outcomes_classify_as_the_design_says() {
    assert_eq!(classify_outcome(HookOutcome::NotStarted), Err(HookError::CommandNotStarted));
    assert_eq!(
        classify_outcome(HookOutcome::Finished { success: false, output: None }),
        Err(HookError::CommandFailed)
    );
    assert_eq!(
        classify_outcome(HookOutcome::Finished { success: true, output: None }),
        Err(HookError::UndecodableOutput)
    );
    assert_eq!(
        classify_outcome(HookOutcome::Finished { success: true, output: Some("hi".to_string()) }),
        Ok("hi".to_string())
    );
}

#[test]
fn failing_hook_stops_the_run_before_later_commands() {
    let hook = HookSpec::new(
        vec!["first".to_string(), "second".to_string(), "third".to_string()],
        HookExecutionTime::Presetup,
    );
    let mut run = HookRun::new(hook.make_commands());

    let a = run.next_command().unwrap();
    assert_eq!(a.program(), "first");
    let ok = run.record_outcome(HookOutcome::Finished {
        success: true,
        output: Some(String::new()),
    });
    assert!(ok.is_ok());

    let b = run.next_command().unwrap();
    assert_eq!(b.program(), "second");
    let failed = run.record_outcome(HookOutcome::Finished { success: false, output: None });
    assert_eq!(failed.unwrap_err(), HookError::CommandFailed);

    // The third command never becomes current, and the verdict is the
    // second command's failure.
    assert!(run.next_command().is_none());
    assert_eq!(run.report(), Err(HookError::CommandFailed));
}

#[test]
fn hooks_are_selected_by_phase_in_order() {
    let hooks = vec![
        HookSpec::new(vec!["a".to_string()], HookExecutionTime::Presetup),
        HookSpec::new(vec!["b".to_string()], HookExecutionTime::Postsetup),
        HookSpec::new(vec!["c".to_string()], HookExecutionTime::Presetup),
    ];
    assert_eq!(hooks_for_phase(&hooks, HookExecutionTime::Presetup), vec![0, 2]);
    assert_eq!(hooks_for_phase(&hooks, HookExecutionTime::Postsetup), vec![1]);
    assert_eq!(hooks_for_phase(&hooks, HookExecutionTime::Preteardown), Vec::<usize>::new());
}

fn sample_config(names: &[&str]) -> DotfileConfiguration {
    let mut entries = Vec::new();
    for name in names {
        entries.push(ConfigSpec::new(
            name.to_string(),
            "linux".to_string(),
            ConfigStatus::Active,
            vec![LinkSpec::new("zshrc", "~/.zshrc", LinkMode::Soft)],
            None,
        ));
    }
    DotfileConfiguration::new(entries, DotfileOptions::new("/repo".to_string()))
}

#[test]
fn lookup_finds_the_unique_entry() {
    let conf = sample_config(&["shell", "editor"]);
    let found = conf.find_appconf(&"shell".to_string()).unwrap();
    assert_eq!(found.assigned_name(), "shell");
    assert_eq!(conf.config_repo(), "/repo");
}

#[test]
fn lookup_fails_when_nothing_matches() {
    let conf = sample_config(&["shell"]);
    let err = conf.find_appconf(&"editor".to_string()).unwrap_err();
    assert_eq!(err, AppconfSearchError::NoneFound);
}

#[test]
fn lookup_treats_duplicates_as_an_error() {
    let conf = sample_config(&["shell", "shell"]);
    let err = conf.find_appconf(&"shell".to_string()).unwrap_err();
    assert_eq!(err, AppconfSearchError::MultipleFound);
}

#[test]
fn selection_filters_by_name_and_platform() {
    let entries = vec![
        ConfigSpec::new(
            "shell".to_string(),
            "linux".to_string(),
            ConfigStatus::Active,
            Vec::new(),
            None,
        ),
        ConfigSpec::new(
            "shell".to_string(),
            "macos".to_string(),
            ConfigStatus::Active,
            Vec::new(),
            None,
        ),
        ConfigSpec::new(
            "editor".to_string(),
            "linux".to_string(),
            ConfigStatus::Active,
            Vec::new(),
            None,
        ),
    ];
    let conf = DotfileConfiguration::new(entries, DotfileOptions::new("/repo".to_string()));
    assert_eq!(conf.select_indices("shell", "linux"), vec![0]);
    assert_eq!(conf.select_indices("shell", "macos"), vec![1]);
    assert_eq!(conf.select_indices("pager", "linux"), Vec::<usize>::new());
}

#[test]
fn shell_entry_is_selected_resolved_and_decided_end_to_end() {
    // The entry named "shell" links the repository's zshrc to ~/.zshrc as a
    // symlink; teardown then removes exactly that link entry.
    let entries = vec![ConfigSpec::new(
        "shell".to_string(),
        "testos".to_string(),
        ConfigStatus::Active,
        vec![LinkSpec::new("zshrc", "~/.zshrc", LinkMode::Soft)],
        None,
    )];
    let conf = DotfileConfiguration::new(entries, DotfileOptions::new("/repo".to_string()));

    let selected = conf.select_indices("shell", "testos");
    assert_eq!(selected, vec![0]);
    let entry = &conf.all_configs()[selected[0]];

    let home = fixed_home();
    let link = &entry.links()[0];
    let plan = setup_link_paths_with(link, conf.config_repo(), &home).unwrap();
    assert_eq!(plan.source(), "/repo/zshrc");
    assert_eq!(plan.target(), "/home/u/.zshrc");
    assert_eq!(setup_action(plan.mode(), true).unwrap(), LinkAction::MakeSoftLink);

    // At teardown the target is a symlink into the repository: the engine
    // removes the link entry alone, never the repository file it points to.
    assert_eq!(teardown_action(true, true, false).unwrap(), TeardownAction::RemoveLinkOnly);
}

#[test]
fn entry_runs_hooks_around_links_and_stops_on_failure() {
    let mut run = EntryRun::new();
    assert_eq!(run.next_step(), EntryStep::RunPreHooks);
    run.advance(true);
    assert_eq!(run.next_step(), EntryStep::ProcessLinks);
    run.advance(true);
    assert_eq!(run.next_step(), EntryStep::RunPostHooks);
    run.advance(true);
    assert_eq!(run.next_step(), EntryStep::Finished);
    assert_eq!(run.stage(), &EntryStage::HooksPost);
    run.advance(true);
    assert_eq!(run.stage(), &EntryStage::Done);
    assert_eq!(run.next_step(), EntryStep::Finished);

    let mut aborted = EntryRun::new();
    aborted.advance(true);
    assert_eq!(aborted.next_step(), EntryStep::ProcessLinks);
    aborted.advance(false);
    assert_eq!(aborted.stage(), &EntryStage::Failed);
    assert_eq!(aborted.next_step(), EntryStep::Finished);
}
