use hmac::{Hmac, Mac};
use sha2::Sha256;
use task_builder::build_process::{complete_build, prepare_build, TaskBuildProcessOutput};
use task_builder::config::{
    get_build_info, BuildConfig, Builder, CourseConfiguration, FlagSpec, FlagType, OutputKind,
    ShellBuilder, Stage, Subtask, Task, Week,
};
use task_builder::error::BuildError;
use task_builder::flag::{generate_flag, FlagKind};
use task_builder::instance::InstanceId;
use task_builder::resolver::{
    identify_all_flag_types, identify_flag_types_for_task, identify_flag_types_for_week,
};

const ONES: u128 = 0x11111111_1111_1111_1111_111111111111;
const ONES_TEXT: &str = "11111111-1111-1111-1111-111111111111";

fn s(x: &str) -> String {
    x.to_string()
}

fn keyed_hash(secret: &str, message: &str) -> String {
    let mut mac = Hmac::<Sha256>::new_from_slice(secret.as_bytes()).unwrap();
    mac.update(message.as_bytes());
    hex::encode(mac.finalize().into_bytes())
}

fn derived(secret: &str) -> FlagSpec {
    FlagSpec { kind: s("user_derived"), algorithm: Some(s("sha256")), secret: Some(s(secret)), length: None }
}

fn random(length: usize) -> FlagSpec {
    FlagSpec { kind: s("pure_random"), algorithm: None, secret: None, length: Some(length) }
}

fn stage(id: Option<&str>, flag: FlagSpec) -> Stage {
    Stage { id: id.map(s), flag }
}

fn task(id: &str, stages: Vec<Stage>, output: Vec<OutputKind>) -> Task {
    Task {
        id: s(id),
        stages,
        subtasks: None,
        flag_types: vec![],
        build: BuildConfig {
            builder: Builder::Shell(ShellBuilder { entrypoint: s("build.sh") }),
            directory: s("tasks/t1"),
            output,
        },
    }
}

fn course(tasks: Vec<Task>) -> CourseConfiguration {
    CourseConfiguration { weeks: vec![Week { number: 1, tasks }] }
}

fn example_course() -> CourseConfiguration {
    course(vec![task(
        "T1",
        vec![stage(Some("s1"), derived("k"))],
        vec![OutputKind::Readme(s("README.md"))],
    )])
}

#[test]
fn instance_text_is_hyphenated_lowercase() {
    assert_eq!(InstanceId::from_u128(ONES).text(), ONES_TEXT);
    let id = InstanceId::from_u128(0xa1a2a3a4_b1b2_c1c2_d1d2_d3d4d5d6d7d8);
    assert_eq!(id.text(), "a1a2a3a4-b1b2-c1c2-d1d2-d3d4d5d6d7d8");
}

#[test]
fn example_task_builds_with_one_derived_flag() {
    let config = example_course();
    let plan = prepare_build(&config, &s("T1"), InstanceId::from_u128(ONES), &s("output")).unwrap();
    assert_eq!(plan.output_dir, format!("output/{}", ONES_TEXT));
    assert_eq!(plan.directory, "tasks/t1");
    assert_eq!(plan.entrypoint, "build.sh");
    assert_eq!(plan.flags.len(), 1);
    assert_eq!(plan.flags[0].id, "s1");
    assert_eq!(plan.flags[0].kind, FlagKind::UserDerived);
    let expected = keyed_hash("k", &format!("s1:{}", ONES_TEXT));
    assert_eq!(expected.len(), 64);
    assert_eq!(plan.flags[0].value, expected);
    let readme = format!("/work/tasks/t1/output/{}/README.md", ONES_TEXT);
    let out = complete_build(plan, true, s(""), vec![Some(readme.clone())]).unwrap();
    assert_eq!(out.uiid, InstanceId::from_u128(ONES));
    assert_eq!(out.flags.len(), 1);
    assert_eq!(out.files.len(), 1);
    assert!(matches!(&out.files[0], OutputKind::Readme(p) if *p == readme));
    assert!(out.get_resource_files().is_empty());
}

#[test]
fn environment_is_flags_then_output_dir() {
    let config = course(vec![task(
        "T1",
        vec![stage(Some("a"), derived("k")), stage(None, random(8))],
        vec![OutputKind::Readme(s("README.md"))],
    )]);
    let plan = prepare_build(&config, &s("T1"), InstanceId::from_u128(7), &s("out")).unwrap();
    assert_eq!(plan.env.len(), 3);
    assert_eq!(plan.env[0], (s("a"), plan.flags[0].value.clone()));
    assert_eq!(plan.env[1], (s("T1"), plan.flags[1].value.clone()));
    assert_eq!(plan.env[2], (s("OUTPUT_DIR"), s("out/00000000-0000-0000-0000-000000000007")));
}

#[test]
fn distinct_instances_have_distinct_dirs_and_values() {
    let config = course(vec![task(
        "T1",
        vec![stage(Some("s1"), derived("k")), stage(Some("s2"), FlagSpec { kind: s("rng_seed"), ..derived("k") })],
        vec![OutputKind::Readme(s("README.md"))],
    )]);
    let a = prepare_build(&config, &s("T1"), InstanceId::from_u128(1), &s("output")).unwrap();
    let b = prepare_build(&config, &s("T1"), InstanceId::from_u128(2), &s("output")).unwrap();
    assert_ne!(a.output_dir, b.output_dir);
    assert!(!a.output_dir.starts_with(&format!("{}/", b.output_dir)));
    assert_eq!(a.flags[1].kind, FlagKind::RngSeed);
    assert_ne!(a.flags[0].value, b.flags[0].value);
    assert_ne!(a.flags[1].value, b.flags[1].value);
}

#[test]
fn rebuilding_reproduces_derived_values() {
    let config = example_course();
    let a = prepare_build(&config, &s("T1"), InstanceId::from_u128(ONES), &s("output")).unwrap();
    let b = prepare_build(&config, &s("T1"), InstanceId::from_u128(ONES), &s("output")).unwrap();
    assert_eq!(a.flags[0].value, b.flags[0].value);
    assert_eq!(a.output_dir, b.output_dir);
}

#[test]
fn random_flags_have_configured_length() {
    let id = s("r");
    let text = s(ONES_TEXT);
    let f1 = generate_flag(&id, &random(32), &text).unwrap();
    let f2 = generate_flag(&id, &random(32), &text).unwrap();
    assert_eq!(f1.kind, FlagKind::PureRandom);
    assert_eq!(f1.value.chars().count(), 32);
    assert!(f1.value.chars().all(|c| c.is_ascii_alphanumeric()));
    assert_ne!(f1.value, f2.value);
    let empty = generate_flag(&id, &random(0), &text).unwrap();
    assert_eq!(empty.value, "");
}

#[test]
fn invalid_flag_declarations_are_errors() {
    let id = s("x");
    let text = s(ONES_TEXT);
    let unknown = FlagSpec { kind: s("static"), ..derived("k") };
    assert_eq!(generate_flag(&id, &unknown, &text).unwrap_err(), BuildError::UnknownFlagKind(s("static")));
    let no_secret = FlagSpec { secret: None, ..derived("k") };
    assert_eq!(generate_flag(&id, &no_secret, &text).unwrap_err(), BuildError::MissingFlagParameter(s("x")));
    let no_length = FlagSpec { length: None, ..random(3) };
    assert_eq!(generate_flag(&id, &no_length, &text).unwrap_err(), BuildError::MissingFlagParameter(s("x")));
    let md5 = FlagSpec { algorithm: Some(s("md5")), ..derived("k") };
    assert_eq!(generate_flag(&id, &md5, &text).unwrap_err(), BuildError::UnsupportedAlgorithm(s("md5")));
}

#[test]
fn duplicate_flag_ids_are_rejected() {
    let config = course(vec![task(
        "T1",
        vec![stage(None, derived("k")), stage(Some("T1"), random(4))],
        vec![OutputKind::Readme(s("README.md"))],
    )]);
    let r = prepare_build(&config, &s("T1"), InstanceId::from_u128(1), &s("output"));
    assert_eq!(r.unwrap_err(), BuildError::DuplicateFlagId(s("T1")));
    let reserved = course(vec![task(
        "T1",
        vec![stage(Some("OUTPUT_DIR"), derived("k"))],
        vec![OutputKind::Readme(s("README.md"))],
    )]);
    let r = prepare_build(&reserved, &s("T1"), InstanceId::from_u128(1), &s("output"));
    assert_eq!(r.unwrap_err(), BuildError::DuplicateFlagId(s("OUTPUT_DIR")));
}

#[test]
fn unknown_task_and_unsupported_builder() {
    let config = example_course();
    let r = prepare_build(&config, &s("T9"), InstanceId::from_u128(1), &s("output"));
    assert_eq!(r.unwrap_err(), BuildError::TaskNotFound(s("T9")));
    let mut nix = example_course();
    nix.weeks[0].tasks[0].build.builder = Builder::Nix(s("flake"));
    let r = prepare_build(&nix, &s("T1"), InstanceId::from_u128(1), &s("output"));
    assert_eq!(r.unwrap_err(), BuildError::UnsupportedBuilder(s("flake")));
}

#[test]
fn failed_builder_yields_no_output() {
    let config = example_course();
    let plan = prepare_build(&config, &s("T1"), InstanceId::from_u128(1), &s("output")).unwrap();
    let r = complete_build(plan, false, s("boom"), vec![Some(s("/x/README.md"))]);
    assert_eq!(r.unwrap_err(), BuildError::NonZeroExit(s("boom")));
}

#[test]
fn missing_output_fails_the_build() {
    let config = course(vec![task(
        "T1",
        vec![stage(None, derived("k"))],
        vec![OutputKind::Readme(s("README.md")), OutputKind::Resource(s("data.bin"))],
    )]);
    let plan = prepare_build(&config, &s("T1"), InstanceId::from_u128(1), &s("output")).unwrap();
    let r = complete_build(plan, true, s(""), vec![Some(s("/x/README.md")), None]);
    assert_eq!(r.unwrap_err(), BuildError::MissingOutput(s("data.bin")));
    let plan = prepare_build(&config, &s("T1"), InstanceId::from_u128(1), &s("output")).unwrap();
    let r = complete_build(plan, true, s(""), vec![Some(s("/x/README.md"))]);
    assert_eq!(r.unwrap_err(), BuildError::MissingOutput(s("data.bin")));
}

#[test]
fn readme_count_must_be_one() {
    let none = vec![OutputKind::Resource(s("a"))];
    let r = TaskBuildProcessOutput::new(InstanceId::from_u128(1), vec![], none);
    assert_eq!(r.unwrap_err(), BuildError::ReadmeCount(0));
    let two = vec![OutputKind::Readme(s("a")), OutputKind::Readme(s("b"))];
    let r = TaskBuildProcessOutput::new(InstanceId::from_u128(1), vec![], two);
    assert_eq!(r.unwrap_err(), BuildError::ReadmeCount(2));
    let config = course(vec![task("T1", vec![], vec![OutputKind::Readme(s("a")), OutputKind::Readme(s("b"))])]);
    let plan = prepare_build(&config, &s("T1"), InstanceId::from_u128(1), &s("output")).unwrap();
    let r = complete_build(plan, true, s(""), vec![Some(s("/a")), Some(s("/b"))]);
    assert_eq!(r.unwrap_err(), BuildError::ReadmeCount(2));
}

#[test]
fn resource_view_skips_readme() {
    let files = vec![
        OutputKind::Resource(s("/o/a.bin")),
        OutputKind::Readme(s("/o/README.md")),
        OutputKind::Resource(s("/o/b.bin")),
    ];
    let out = TaskBuildProcessOutput::new(InstanceId::from_u128(1), vec![], files).unwrap();
    assert_eq!(out.get_resource_files(), vec![s("/o/a.bin"), s("/o/b.bin")]);
    assert_eq!(out.get_resource_files(), vec![s("/o/a.bin"), s("/o/b.bin")]);
}

#[test]
fn build_info_lookup() {
    let mut config = example_course();
    let info = get_build_info(&mut config, s("T1")).unwrap();
    assert_eq!(info.directory, "tasks/t1");
    assert_eq!(
        get_build_info(&mut config, s("nope")).unwrap_err(),
        "Build information for task with id nope not found!"
    );
}

fn subtask_task(id: &str) -> Task {
    let mut t = task(id, vec![], vec![]);
    t.subtasks = Some(vec![
        Subtask { id: s("a"), flag_type: None },
        Subtask { id: s("b"), flag_type: None },
    ]);
    t.flag_types = vec![
        FlagType { id: s("a"), algorithm: s("sha256"), secret: Some(s("first")), length: None },
        FlagType { id: s("a"), algorithm: s("sha256"), secret: Some(s("second")), length: None },
    ];
    t
}

fn resolver_course() -> CourseConfiguration {
    CourseConfiguration {
        weeks: vec![
            Week { number: 1, tasks: vec![subtask_task("T1"), subtask_task("T2")] },
            Week { number: 2, tasks: vec![subtask_task("T3")] },
        ],
    }
}

fn bound(c: &CourseConfiguration, w: usize, t: usize) -> bool {
    c.weeks[w].tasks[t].subtasks.as_ref().unwrap()[0].flag_type.is_some()
}

#[test]
fn resolving_one_task_touches_only_it() {
    let mut c = resolver_course();
    assert_eq!(identify_flag_types_for_task(&mut c, 1, &s("T2")), Ok(1));
    assert!(!bound(&c, 0, 0) && bound(&c, 0, 1) && !bound(&c, 1, 0));
    let subs = c.weeks[0].tasks[1].subtasks.as_ref().unwrap();
    assert_eq!(subs[0].flag_type.as_ref().unwrap().secret, Some(s("first")));
    assert!(subs[1].flag_type.is_none());
    assert_eq!(identify_flag_types_for_task(&mut c, 1, &s("T3")), Err(BuildError::TaskNotFound(s("T3"))));
    assert_eq!(identify_flag_types_for_task(&mut c, 5, &s("T1")), Err(BuildError::WeekNotFound(5)));
}

#[test]
fn resolving_week_and_all() {
    let mut c = resolver_course();
    assert_eq!(identify_flag_types_for_week(&mut c, 1), Ok(2));
    assert!(bound(&c, 0, 0) && bound(&c, 0, 1) && !bound(&c, 1, 0));
    assert_eq!(identify_flag_types_for_week(&mut c, 3), Err(BuildError::WeekNotFound(3)));
    let mut c = resolver_course();
    assert_eq!(identify_all_flag_types(&mut c), 3);
    assert!(bound(&c, 0, 0) && bound(&c, 0, 1) && bound(&c, 1, 0));
}
