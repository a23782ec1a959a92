use aether_code::command::CommandOutcome;
use aether_code::docker_sandbox::{
    build_image_outcome, check_docker_user, check_no_network_code, check_result, docker_run_script,
    image_exists_outcome, user_outcome, DockerSandboxConfig, SandboxAction, SandboxEvent, SandboxMode,
    SandboxPhase, SandboxRun, WriteOutcome, CARGO_CHECK,
};

#[test]
fn test_check_no_network_code_valid() {
    let code = "fn main() { println!(\"Hola\"); }";
    assert!(check_no_network_code(code).is_ok());
}

#[test]
fn test_check_no_network_code_invalid() {
    let code = "use std::net::TcpStream; fn main() { TcpStream::connect(\"localhost:80\"); }";
    let result = check_no_network_code(code);
    assert!(result.is_err());
    assert!(result.unwrap_err().contains("xarxa"));
}

#[test]
fn test_default_config() {
    let config = DockerSandboxConfig::with_cargo_home(None);
    assert_eq!(config.timeout_seconds, 60);
    assert_eq!(config.image_name, "aether-sandbox:latest");
    assert_eq!(config.cargo_cache, "/home/aether/.cargo");
    let config = DockerSandboxConfig::with_cargo_home(Some("/cache".into()));
    assert_eq!(config.cargo_cache, "/cache");
}

#[test]
fn test_network_isolation_verification() {
    let code_with_network = "use std::net::TcpStream; fn main() { TcpStream::connect(\"127.0.0.1:8080\"); }";
    assert!(check_no_network_code(code_with_network).is_err(), "El codi amb TcpStream hauria de ser detectat");
    let code_with_reqwest = "fn main() { reqwest::blocking::get(\"https://example.com\").unwrap(); }";
    assert!(check_no_network_code(code_with_reqwest).is_err(), "El codi amb reqwest hauria de ser detectat");
    let code_without_network = "fn main() { let x = 42; println!(\"{}\", x); }";
    assert!(check_no_network_code(code_without_network).is_ok(), "El codi sense xarxa hauria de ser acceptat");
}

#[test]
fn test_docker_image_exists() {
    let present = CommandOutcome::Ran { success: true, stdout: "[]".into(), stderr: String::new() };
    assert_eq!(image_exists_outcome(&present), Ok(true));
    let absent = CommandOutcome::Ran { success: false, stdout: String::new(), stderr: "No such image".into() };
    assert_eq!(image_exists_outcome(&absent), Ok(false));
    let no_docker = CommandOutcome::NotRun("not found".into());
    assert_eq!(image_exists_outcome(&no_docker), Err("Error comprovant imatge: not found".to_string()));
}

#[test]
fn test_docker_build_command() {
    let result = build_image_outcome(&CommandOutcome::NotRun("exec failed".into()));
    match result {
        Ok(()) => {}
        Err(e) => assert!(e.contains("Docker") || e.contains("exec"), "Error esperat si Docker no és accessible: {}", e),
    }
    let failed = CommandOutcome::Ran { success: false, stdout: String::new(), stderr: "boom".into() };
    assert_eq!(build_image_outcome(&failed), Err("Error construint imatge Docker: boom".to_string()));
    let built = CommandOutcome::Ran { success: true, stdout: String::new(), stderr: String::new() };
    assert_eq!(build_image_outcome(&built), Ok(()));
}

#[test]
fn test_check_docker_user() {
    assert_eq!(check_docker_user("aether\n", "aether"), Ok(()));
    assert_eq!(
        check_docker_user(" root \n", "aether"),
        Err("Usuari 'aether' no trobat a la imatge Docker (found: root)".to_string())
    );
    let o = CommandOutcome::NotRun("x".into());
    assert_eq!(user_outcome(&o, "aether"), Err("Error verificant usuari: x".to_string()));
}

#[test]
fn test_check_result_combines_output() {
    let ok = check_result(true, "out", "err");
    assert!(ok.success);
    assert_eq!(ok.output, "outerr");
    assert!(ok.error.is_none());
    let bad = check_result(false, "out", "err");
    assert_eq!(bad.error.as_deref(), Some("err"));
}

#[test]
fn test_docker_run_script() {
    let config = DockerSandboxConfig::with_cargo_home(Some("/c".into()));
    assert_eq!(
        docker_run_script(&config, CARGO_CHECK),
        "timeout 60 docker run --rm --network none --memory 512m --cpus 1.0 -v /home/aether/sandbox:/home/aether/sandbox -v /c:/home/aether/.cargo/registry -w /home/aether/sandbox -u aether aether-sandbox:latest cargo check"
    );
}

fn ran(success: bool, stdout: &str, stderr: &str) -> CommandOutcome {
    CommandOutcome::Ran { success, stdout: stdout.into(), stderr: stderr.into() }
}

#[test]
fn test_sandbox_check_run_verifies_user() {
    let config = DockerSandboxConfig::with_cargo_home(Some("/c".into()));
    let run = SandboxRun::new(config, "fn main() {}", SandboxMode::Check);
    let (run, a) = run.step(SandboxEvent::Started);
    assert!(matches!(a, SandboxAction::InspectImage { ref image } if image == "aether-sandbox:latest"));
    let (run, a) = run.step(SandboxEvent::Inspected(ran(false, "", "")));
    assert!(matches!(a, SandboxAction::BuildImage { .. }));
    let (run, a) = run.step(SandboxEvent::Built(ran(true, "", "")));
    assert!(matches!(a, SandboxAction::VerifyUser { .. }));
    let (run, a) = run.step(SandboxEvent::UserChecked(ran(true, "aether\n", "")));
    match a {
        SandboxAction::WriteCode { path, code } => {
            assert_eq!(path, "/home/aether/sandbox/src/main.rs");
            assert_eq!(code, "fn main() {}");
        },
        other => panic!("{:?}", other),
    }
    let (run, a) = run.step(SandboxEvent::Written(WriteOutcome::Written));
    match a {
        SandboxAction::RunScript { script } => assert!(script.ends_with("aether-sandbox:latest cargo check")),
        other => panic!("{:?}", other),
    }
    let (run, a) = run.step(SandboxEvent::Ran(ran(false, "o", "e")));
    assert_eq!(run.phase(), SandboxPhase::Done);
    match a {
        SandboxAction::Finish(Ok(r)) => {
            assert!(!r.success);
            assert_eq!(r.output, "oe");
            assert_eq!(r.error.as_deref(), Some("e"));
        },
        other => panic!("{:?}", other),
    }
}

#[test]
fn test_sandbox_check_refuses_wrong_user() {
    let config = DockerSandboxConfig::with_cargo_home(None);
    let run = SandboxRun::new(config, "x", SandboxMode::Check);
    let (run, _) = run.step(SandboxEvent::Started);
    let (run, _) = run.step(SandboxEvent::Inspected(ran(true, "", "")));
    let (_, a) = run.step(SandboxEvent::UserChecked(ran(true, "root", "")));
    match a {
        SandboxAction::Finish(Err(e)) => assert_eq!(
            e,
            "Docker image sense usuari correcte: Usuari 'aether' no trobat a la imatge Docker (found: root)"
        ),
        other => panic!("{:?}", other),
    }
}

#[test]
fn test_sandbox_test_run_skips_user_and_runs_tests() {
    let config = DockerSandboxConfig::with_cargo_home(None);
    let run = SandboxRun::new(config, "x", SandboxMode::Test);
    let (run, _) = run.step(SandboxEvent::Started);
    let (run, a) = run.step(SandboxEvent::Inspected(ran(true, "", "")));
    assert!(matches!(a, SandboxAction::WriteCode { .. }));
    let (run, a) = run.step(SandboxEvent::Written(WriteOutcome::Written));
    match a {
        SandboxAction::RunScript { script } => assert!(script.ends_with("cargo test --lib")),
        other => panic!("{:?}", other),
    }
    let (_, a) = run.step(SandboxEvent::Ran(CommandOutcome::NotRun("sh missing".into())));
    match a {
        SandboxAction::Finish(Err(e)) => assert_eq!(e, "Error executant docker test: sh missing"),
        other => panic!("{:?}", other),
    }
}

#[test]
fn test_sandbox_build_failure_messages() {
    let check = SandboxRun::new(DockerSandboxConfig::with_cargo_home(None), "x", SandboxMode::Check);
    let (check, _) = check.step(SandboxEvent::Started);
    let (check, _) = check.step(SandboxEvent::Inspected(ran(false, "", "")));
    let (_, a) = check.step(SandboxEvent::Built(ran(false, "", "no Dockerfile")));
    match a {
        SandboxAction::Finish(Err(e)) => {
            assert_eq!(e, "Docker no disponible: Error construint imatge Docker: no Dockerfile")
        },
        other => panic!("{:?}", other),
    }
    let test = SandboxRun::new(DockerSandboxConfig::with_cargo_home(None), "x", SandboxMode::Test);
    let (test, _) = test.step(SandboxEvent::Started);
    let (test, _) = test.step(SandboxEvent::Inspected(ran(false, "", "")));
    let (_, a) = test.step(SandboxEvent::Built(ran(false, "", "no Dockerfile")));
    match a {
        SandboxAction::Finish(Err(e)) => assert_eq!(e, "Error construint imatge Docker: no Dockerfile"),
        other => panic!("{:?}", other),
    }
    let run = SandboxRun::new(DockerSandboxConfig::with_cargo_home(None), "x", SandboxMode::Test);
    let (run, _) = run.step(SandboxEvent::Started);
    let (run, _) = run.step(SandboxEvent::Inspected(ran(true, "", "")));
    let (_, a) = run.step(SandboxEvent::Written(WriteOutcome::DirFailed("ro".into())));
    match a {
        SandboxAction::Finish(Err(e)) => assert_eq!(e, "Error creant directoris: ro"),
        other => panic!("{:?}", other),
    }
}
