use std::cell::RefCell;
use std::rc::Rc;

use safepaw::vm::{CommandExecutor, CommandOutput, Multipass, MultipassCli, VmError};

const INFO_JSON: &str =
    "{\"errors\":[],\"info\":{\"agent-1\":{\"state\":\"Running\",\"release\":\"22.04\"}}}";
const LIST_JSON: &str = "{\"list\":[{\"name\":\"agent-1\",\"state\":\"Running\"},{\"name\":\"agent-2\",\"state\":\"Stopped\"}]}";

struct ScriptedExecutor {
    programs: Rc<RefCell<Vec<String>>>,
    calls: Rc<RefCell<Vec<Vec<String>>>>,
}

impl CommandExecutor for ScriptedExecutor {
    fn run(&self, program: &str, args: &[String]) -> Result<CommandOutput, String> {
        self.programs.borrow_mut().push(program.to_string());
        self.calls.borrow_mut().push(args.to_vec());
        let stdout = match args[0].as_str() {
            "info" => INFO_JSON,
            "list" => LIST_JSON,
            _ => "",
        };
        Ok(CommandOutput::success(stdout))
    }
}

#[test]
fn launch_info_list_and_stop_flow_maps_to_multipass_commands() {
    let programs = Rc::new(RefCell::new(Vec::new()));
    let calls = Rc::new(RefCell::new(Vec::new()));
    let executor = ScriptedExecutor { programs: programs.clone(), calls: calls.clone() };
    let cli = MultipassCli::new(executor);

    assert!(cli.launch("agent-1").is_ok(), "launch should work");

    let info = cli.info("agent-1").expect("info should work");
    assert_eq!(info.name, "agent-1");
    assert_eq!(info.state, "Running");
    assert_eq!(info.release.as_deref(), Some("22.04"));

    let vms = cli.list().expect("list should work");
    assert_eq!(vms.len(), 2);
    assert_eq!(vms[0].name, "agent-1");
    assert_eq!(vms[0].state, "Running");
    assert_eq!(vms[1].name, "agent-2");
    assert_eq!(vms[1].state, "Stopped");

    assert!(cli.stop("agent-1").is_ok(), "stop should work");

    assert!(programs.borrow().iter().all(|p| p == "multipass"));
    let recorded = calls.borrow();
    assert_eq!(
        *recorded,
        vec![
            vec!["launch".to_string(), "--name".to_string(), "agent-1".to_string()],
            vec![
                "info".to_string(),
                "agent-1".to_string(),
                "--format".to_string(),
                "json".to_string()
            ],
            vec!["list".to_string(), "--format".to_string(), "json".to_string()],
            vec!["stop".to_string(), "agent-1".to_string()],
        ]
    );
}

struct FailingExecutor;

impl CommandExecutor for FailingExecutor {
    fn run(&self, _program: &str, _args: &[String]) -> Result<CommandOutput, String> {
        Ok(CommandOutput {
            status_code: 1,
            stdout: String::new(),
            stderr: "launch failed".to_string(),
        })
    }
}

#[test]
fn launch_returns_error_when_multipass_command_fails() {
    let cli = MultipassCli::new(FailingExecutor);
    let err = cli.launch("agent-1").expect_err("launch should fail");
    match &err {
        VmError::CommandFailed { action, status_code, stderr } => {
            assert_eq!(*action, "launch");
            assert_eq!(*status_code, 1);
            assert_eq!(stderr, "launch failed");
        }
        other => panic!("unexpected error: {:?}", other),
    }
    let text = err.message();
    assert!(text.contains("launch"));
    assert!(text.contains("launch failed"));
}
