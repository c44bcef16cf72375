use safepaw::vm::{parse_list_output, parse_status_output, VmError};

#[test]
fn full_fixture_populates_every_field() {
    let fixture = "{\"errors\":[],\"info\":{\"agent-1\":{\"cpu_count\":\"2\",\"disks\":{\"sda1\":{\"total\":\"10737418240\",\"used\":\"1073741824\"}},\"image_release\":\"22.04 LTS\",\"ipv4\":[\"10.0.0.1\",\"10.0.0.2\"],\"memory\":{\"total\":2147483648,\"used\":1073741824},\"release\":\"Ubuntu 22.04.3 LTS\",\"state\":\"Running\"}}}";
    let st = parse_status_output("agent-1", fixture).expect("fixture must parse");
    assert_eq!(st.name, "agent-1");
    assert_eq!(st.state, "Running");
    assert_eq!(st.ipv4, Some(vec!["10.0.0.1".to_string(), "10.0.0.2".to_string()]));
    assert_eq!(st.release.as_deref(), Some("Ubuntu 22.04.3 LTS"));
    assert_eq!(st.image_release.as_deref(), Some("22.04 LTS"));
    assert_eq!(st.cpu_count.as_deref(), Some("2"));
    assert_eq!(st.memory_total, Some(2147483648));
    assert_eq!(st.memory_used, Some(1073741824));
    assert_eq!(st.disk_total, Some(10737418240));
    assert_eq!(st.disk_used, Some(1073741824));
}

#[test]
fn minimal_fixture_leaves_every_optional_field_absent() {
    // Right after launch the tool may report nothing but the state.
    let fixture = "{\"info\":{\"agent-1\":{\"state\":\"Starting\"}}}";
    let st = parse_status_output("agent-1", fixture).expect("minimal fixture must parse");
    assert_eq!(st.name, "agent-1");
    assert_eq!(st.state, "Starting");
    assert_eq!(st.ipv4, None);
    assert_eq!(st.release, None);
    assert_eq!(st.image_release, None);
    assert_eq!(st.cpu_count, None);
    assert_eq!(st.memory_total, None);
    assert_eq!(st.memory_used, None);
    assert_eq!(st.disk_total, None);
    assert_eq!(st.disk_used, None);
}

#[test]
fn non_string_address_elements_are_filtered_out() {
    let fixture =
        "{\"info\":{\"agent-1\":{\"state\":\"Running\",\"ipv4\":[\"10.0.0.1\",5,null]}}}";
    let st = parse_status_output("agent-1", fixture).expect("fixture must parse");
    assert_eq!(st.ipv4, Some(vec!["10.0.0.1".to_string()]));
}

#[test]
fn malformed_disk_numbers_count_as_absent() {
    let fixture = "{\"info\":{\"agent-1\":{\"state\":\"Running\",\"disks\":{\"sda1\":{\"total\":\"lots\",\"used\":\"1024\"}}}}}";
    let st = parse_status_output("agent-1", fixture).expect("fixture must parse");
    assert_eq!(st.disk_total, None);
    assert_eq!(st.disk_used, Some(1024));
}

#[test]
fn missing_state_fails_with_invalid_output() {
    let fixture = "{\"info\":{\"agent-1\":{\"release\":\"22.04\"}}}";
    let err = parse_status_output("agent-1", fixture).expect_err("missing state must fail");
    match err {
        VmError::InvalidOutput { action, reason } => {
            assert_eq!(action, "status");
            assert_eq!(reason, "missing VM state");
        }
        other => panic!("unexpected error: {:?}", other),
    }
}

#[test]
fn missing_entry_fails_with_invalid_output() {
    let fixture = "{\"info\":{\"agent-2\":{\"state\":\"Running\"}}}";
    let err = parse_status_output("agent-1", fixture).expect_err("missing entry must fail");
    match err {
        VmError::InvalidOutput { action, reason } => {
            assert_eq!(action, "status");
            assert_eq!(reason, "missing VM entry for agent-1");
        }
        other => panic!("unexpected error: {:?}", other),
    }
}

#[test]
fn missing_info_object_fails_with_invalid_output() {
    let err = parse_status_output("agent-1", "{\"list\":[]}").expect_err("must fail");
    match err {
        VmError::InvalidOutput { action, reason } => {
            assert_eq!(action, "status");
            assert_eq!(reason, "missing info object");
        }
        other => panic!("unexpected error: {:?}", other),
    }
    let err2 = parse_status_output("agent-1", "{\"info\":42}").expect_err("must fail");
    match err2 {
        VmError::InvalidOutput { action, reason } => {
            assert_eq!(action, "status");
            assert_eq!(reason, "missing info object");
        }
        other => panic!("unexpected error: {:?}", other),
    }
}

#[test]
fn unparseable_info_text_fails_with_invalid_output() {
    let err = parse_status_output("agent-1", "not json").expect_err("must fail");
    match err {
        VmError::InvalidOutput { action, .. } => assert_eq!(action, "status"),
        other => panic!("unexpected error: {:?}", other),
    }
}

#[test]
fn list_fixture_yields_one_summary_per_element() {
    let fixture = "{\"list\":[{\"ipv4\":[\"192.168.1.100\"],\"name\":\"agent-1\",\"release\":\"Ubuntu 22.04\",\"state\":\"Running\"},{\"name\":\"agent-2\",\"state\":\"Stopped\"}]}";
    let vms = parse_list_output(fixture).expect("fixture must parse");
    assert_eq!(vms.len(), 2);
    assert_eq!(vms[0].name, "agent-1");
    assert_eq!(vms[0].state, "Running");
    assert_eq!(vms[0].ipv4, Some(vec!["192.168.1.100".to_string()]));
    assert_eq!(vms[0].release.as_deref(), Some("Ubuntu 22.04"));
    assert_eq!(vms[1].name, "agent-2");
    assert_eq!(vms[1].state, "Stopped");
    assert_eq!(vms[1].ipv4, None);
    assert_eq!(vms[1].release, None);
}

#[test]
fn empty_list_fixture_yields_no_summaries() {
    let vms = parse_list_output("{\"list\":[]}").expect("empty list must parse");
    assert!(vms.is_empty());
}

#[test]
fn one_bad_element_fails_the_whole_list() {
    let fixture = "{\"list\":[{\"name\":\"agent-1\",\"state\":\"Running\"},{\"name\":\"agent-2\"}]}";
    let err = parse_list_output(fixture).expect_err("bad element must fail the operation");
    match err {
        VmError::InvalidOutput { action, reason } => {
            assert_eq!(action, "list");
            assert_eq!(reason, "missing VM state");
        }
        other => panic!("unexpected error: {:?}", other),
    }
}

#[test]
fn element_without_name_reports_the_name_first() {
    let fixture = "{\"list\":[{\"state\":\"Running\"}]}";
    let err = parse_list_output(fixture).expect_err("bad element must fail the operation");
    match err {
        VmError::InvalidOutput { action, reason } => {
            assert_eq!(action, "list");
            assert_eq!(reason, "missing VM name");
        }
        other => panic!("unexpected error: {:?}", other),
    }
}

#[test]
fn missing_list_array_fails_with_invalid_output() {
    let err = parse_list_output("{\"info\":{}}").expect_err("must fail");
    match err {
        VmError::InvalidOutput { action, reason } => {
            assert_eq!(action, "list");
            assert_eq!(reason, "missing list array");
        }
        other => panic!("unexpected error: {:?}", other),
    }
}
