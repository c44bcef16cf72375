use std::cell::RefCell;
use std::rc::Rc;

use safepaw::cli::{run_vm_subcommand, VmApi, VmCommand, ApiError};
use safepaw::vm::{VmStatusResponse, VmSummary};

struct MockApi {
    calls: Rc<RefCell<Vec<String>>>,
}

fn api_with_log() -> (MockApi, Rc<RefCell<Vec<String>>>) {
    let log = Rc::new(RefCell::new(Vec::new()));
    (MockApi { calls: log.clone() }, log)
}

impl VmApi for MockApi {
    fn launch(&self, name: &str) -> Result<(), ApiError> {
        self.calls.borrow_mut().push(format!("launch:{name}"));
        Ok(())
    }

    fn start(&self, name: &str) -> Result<(), ApiError> {
        self.calls.borrow_mut().push(format!("start:{name}"));
        Ok(())
    }

    fn stop(&self, name: &str) -> Result<(), ApiError> {
        self.calls.borrow_mut().push(format!("stop:{name}"));
        Ok(())
    }

    fn restart(&self, name: &str) -> Result<(), ApiError> {
        self.calls.borrow_mut().push(format!("restart:{name}"));
        Ok(())
    }

    fn delete(&self, name: &str) -> Result<(), ApiError> {
        self.calls.borrow_mut().push(format!("delete:{name}"));
        Ok(())
    }

    fn info(&self, name: &str) -> Result<VmStatusResponse, ApiError> {
        self.calls.borrow_mut().push(format!("info:{name}"));
        Ok(VmStatusResponse::minimal(name, "Running"))
    }

    fn list(&self) -> Result<Vec<VmSummary>, ApiError> {
        self.calls.borrow_mut().push("list".to_string());
        Ok(vec![
            VmSummary::minimal("agent-1", "Running"),
            VmSummary::minimal("agent-2", "Stopped"),
        ])
    }
}

#[test]
fn vm_launch_command_produces_expected_output_and_call() {
    let (api, log) = api_with_log();
    let cmd = VmCommand::Launch { name: "agent-1".to_string() };
    let lines = run_vm_subcommand(&cmd, &api).expect("launch command failed");
    assert_eq!(lines, vec!["launched agent-1".to_string()]);
    assert_eq!(*log.borrow(), vec!["launch:agent-1".to_string()]);
}

#[test]
fn vm_info_command_produces_expected_output_and_call() {
    let (api, log) = api_with_log();
    let cmd = VmCommand::Info { name: "agent-1".to_string() };
    let lines = run_vm_subcommand(&cmd, &api).expect("info command failed");
    assert_eq!(lines, vec!["Name:  agent-1".to_string(), "State: Running".to_string()]);
    assert_eq!(*log.borrow(), vec!["info:agent-1".to_string()]);
}

#[test]
fn vm_list_command_produces_expected_output_and_call() {
    let (api, log) = api_with_log();
    let lines = run_vm_subcommand(&VmCommand::List, &api).expect("list command failed");
    assert_eq!(lines, vec!["agent-1 | Running".to_string(), "agent-2 | Stopped".to_string()]);
    assert_eq!(*log.borrow(), vec!["list".to_string()]);
}

#[test]
fn vm_stop_command_produces_expected_output_and_call() {
    let (api, log) = api_with_log();
    let cmd = VmCommand::Stop { name: "agent-1".to_string() };
    let lines = run_vm_subcommand(&cmd, &api).expect("stop command failed");
    assert_eq!(lines, vec!["stopped agent-1".to_string()]);
    assert_eq!(*log.borrow(), vec!["stop:agent-1".to_string()]);
}
