use std::cell::RefCell;
use std::rc::Rc;

use safepaw::cli::{LocalVmApi, VmApi};
use safepaw::vm::{Multipass, VmError, VmStatusResponse, VmSummary};

struct MockMultipass {
    calls: Rc<RefCell<Vec<String>>>,
}

fn mock_with_log() -> (MockMultipass, Rc<RefCell<Vec<String>>>) {
    let log = Rc::new(RefCell::new(Vec::new()));
    (MockMultipass { calls: log.clone() }, log)
}

impl Multipass for MockMultipass {
    fn launch(&self, name: &str) -> Result<(), VmError> {
        self.calls.borrow_mut().push(format!("launch:{name}"));
        Ok(())
    }

    fn start(&self, name: &str) -> Result<(), VmError> {
        self.calls.borrow_mut().push(format!("start:{name}"));
        Ok(())
    }

    fn stop(&self, name: &str) -> Result<(), VmError> {
        self.calls.borrow_mut().push(format!("stop:{name}"));
        Ok(())
    }

    fn restart(&self, name: &str) -> Result<(), VmError> {
        self.calls.borrow_mut().push(format!("restart:{name}"));
        Ok(())
    }

    fn delete(&self, name: &str) -> Result<(), VmError> {
        self.calls.borrow_mut().push(format!("delete:{name}"));
        Ok(())
    }

    fn info(&self, name: &str) -> Result<VmStatusResponse, VmError> {
        self.calls.borrow_mut().push(format!("info:{name}"));
        Ok(VmStatusResponse::minimal(name, "Running"))
    }

    fn list(&self) -> Result<Vec<VmSummary>, VmError> {
        self.calls.borrow_mut().push("list".to_string());
        Ok(vec![
            VmSummary::minimal("agent-1", "Running"),
            VmSummary::minimal("agent-2", "Stopped"),
        ])
    }
}

#[test]
fn launch_calls_multipass() {
    let (mock, log) = mock_with_log();
    let api = LocalVmApi::new(mock);
    api.launch("agent-1").expect("launch should succeed");
    assert_eq!(*log.borrow(), vec!["launch:agent-1".to_string()]);
}

#[test]
fn info_returns_vm_info() {
    let (mock, log) = mock_with_log();
    let api = LocalVmApi::new(mock);
    let info = api.info("agent-1").expect("info should succeed");
    assert_eq!(info.name, "agent-1");
    assert_eq!(info.state, "Running");
    assert_eq!(*log.borrow(), vec!["info:agent-1".to_string()]);
}

#[test]
fn list_returns_vms_from_multipass() {
    let (mock, log) = mock_with_log();
    let api = LocalVmApi::new(mock);
    let vms = api.list().expect("list should succeed");
    assert_eq!(vms.len(), 2);
    assert_eq!(vms[0].name, "agent-1");
    assert_eq!(vms[0].state, "Running");
    assert_eq!(vms[1].name, "agent-2");
    assert_eq!(vms[1].state, "Stopped");
    assert_eq!(*log.borrow(), vec!["list".to_string()]);
}

#[test]
fn stop_stops_vm() {
    let (mock, log) = mock_with_log();
    let api = LocalVmApi::new(mock);
    api.stop("agent-1").expect("stop should succeed");
    assert_eq!(*log.borrow(), vec!["stop:agent-1".to_string()]);
}
