use crostini::env::EnvVars;
use crostini::executor::{
    is_launchable, not_found_message, ExecError, ProgramLookup, ValidationError,
};
use crostini::Crostini;

fn strings(items: &[&str]) -> Vec<String> {
    items.iter().map(|s| s.to_string()).collect()
}

fn candidates(lookup: &ProgramLookup) -> Vec<String> {
    match lookup {
        ProgramLookup::Search(c) => c.clone(),
        ProgramLookup::Path(p) => panic!("expected a search, got path {p}"),
    }
}

fn env_with_path(path: &str) -> EnvVars {
    let mut env = EnvVars::new();
    env.insert("HOME".to_string(), "/root".to_string());
    env.insert("PATH".to_string(), path.to_string());
    env
}

#[test]
fn validate_needs_arguments() {
    let args = strings(&["sh", "-c", "true"]);
    assert!(Crostini.validate(Some(&args)).is_ok());
    let empty: Vec<String> = Vec::new();
    assert_eq!(Crostini.validate(Some(&empty)), Err(ValidationError::NoArguments));
    assert_eq!(Crostini.validate(None), Err(ValidationError::NoArguments));
}

#[test]
fn validation_error_text() {
    assert_eq!(ValidationError::NoArguments.message(), "no arguments provided to execute");
}

#[test]
fn missing_arguments_are_an_invalid_argument() {
    let empty: Vec<String> = Vec::new();
    assert!(matches!(Crostini.plan_exec(Some(&empty), None), Err(ExecError::InvalidArg)));
    assert!(matches!(Crostini.plan_exec(None, None), Err(ExecError::InvalidArg)));
}

#[test]
fn program_with_slash_is_used_as_given() {
    let args = strings(&["/usr/bin/true", "a", "b"]);
    let plan = Crostini.plan_exec(Some(&args), None).unwrap();
    assert_eq!(plan.program, "/usr/bin/true");
    assert_eq!(plan.args, strings(&["a", "b"]));
    assert!(matches!(&plan.lookup, ProgramLookup::Path(p) if p == "/usr/bin/true"));
    assert_eq!(Crostini.choose_program(&plan, &Vec::new()).unwrap(), "/usr/bin/true");

    let args = strings(&["bin/tool"]);
    let plan = Crostini.plan_exec(Some(&args), None).unwrap();
    assert!(matches!(&plan.lookup, ProgramLookup::Path(p) if p == "bin/tool"));
}

#[test]
fn default_search_path_without_environment() {
    let args = strings(&["sh", "-c", "exit 0"]);
    let plan = Crostini.plan_exec(Some(&args), None).unwrap();
    assert_eq!(plan.program, "sh");
    assert_eq!(plan.args, strings(&["-c", "exit 0"]));
    assert_eq!(candidates(&plan.lookup), strings(&["/bin/sh", "/usr/bin/sh"]));
}

#[test]
fn default_search_path_when_environment_has_no_path() {
    let mut env = EnvVars::new();
    env.insert("HOME".to_string(), "/root".to_string());
    let args = strings(&["sleep", "0.1"]);
    let plan = Crostini.plan_exec(Some(&args), Some(&env)).unwrap();
    assert_eq!(candidates(&plan.lookup), strings(&["/bin/sleep", "/usr/bin/sleep"]));
}

#[test]
fn container_path_is_searched_in_order() {
    let env = env_with_path("/usr/local/sbin:/usr/local/bin:/usr/sbin:/usr/bin:/sbin:/bin");
    let args = strings(&["sh"]);
    let plan = Crostini.plan_exec(Some(&args), Some(&env)).unwrap();
    assert_eq!(
        candidates(&plan.lookup),
        strings(&[
            "/usr/local/sbin/sh",
            "/usr/local/bin/sh",
            "/usr/sbin/sh",
            "/usr/bin/sh",
            "/sbin/sh",
            "/bin/sh",
        ])
    );
}

#[test]
fn empty_path_fields_mean_the_current_directory() {
    let env = env_with_path(":/opt/tools/::x");
    let args = strings(&["run"]);
    let plan = Crostini.plan_exec(Some(&args), Some(&env)).unwrap();
    assert_eq!(
        candidates(&plan.lookup),
        strings(&["./run", "/opt/tools/run", "./run", "x/run"])
    );
    let env = env_with_path("");
    let plan = Crostini.plan_exec(Some(&args), Some(&env)).unwrap();
    assert_eq!(candidates(&plan.lookup), strings(&["./run"]));
}

#[test]
fn first_launchable_candidate_is_chosen() {
    let env = env_with_path("/a:/b:/c");
    let args = strings(&["prog"]);
    let plan = Crostini.plan_exec(Some(&args), Some(&env)).unwrap();
    assert_eq!(Crostini.choose_program(&plan, &vec![false, true, true]).unwrap(), "/b/prog");
    assert_eq!(Crostini.choose_program(&plan, &vec![true, true, true]).unwrap(), "/a/prog");
    assert_eq!(Crostini.choose_program(&plan, &vec![false, false, true]).unwrap(), "/c/prog");
}

#[test]
fn no_launchable_candidate_is_not_found() {
    let env = env_with_path("/a:/b");
    let args = strings(&["prog"]);
    let plan = Crostini.plan_exec(Some(&args), Some(&env)).unwrap();
    match Crostini.choose_program(&plan, &vec![false, false]) {
        Err(ExecError::NotFound { program }) => {
            assert_eq!(program, "prog");
            assert_eq!(not_found_message(&program), "prog not found in PATH");
        }
        other => panic!("unexpected {other:?}"),
    }
    // Missing entries count as not launchable.
    assert!(matches!(
        Crostini.choose_program(&plan, &vec![false]),
        Err(ExecError::NotFound { .. })
    ));
}

#[test]
fn launchable_needs_a_file_with_an_execute_bit() {
    assert!(is_launchable(true, 0o755));
    assert!(is_launchable(true, 0o100));
    assert!(is_launchable(true, 0o001));
    assert!(!is_launchable(true, 0o644));
    assert!(!is_launchable(false, 0o755));
}

#[test]
fn workload_environment_is_exactly_the_container_environment() {
    let env = env_with_path("/bin");
    let args = strings(&["sh"]);
    let plan = Crostini.plan_exec(Some(&args), Some(&env)).unwrap();
    assert_eq!(
        plan.env,
        vec![
            ("HOME".to_string(), "/root".to_string()),
            ("PATH".to_string(), "/bin".to_string()),
        ]
    );
}

#[test]
fn workload_environment_is_empty_without_container_environment() {
    let args = strings(&["/usr/bin/true"]);
    let plan = Crostini.plan_exec(Some(&args), None).unwrap();
    assert!(plan.env.is_empty());
}
