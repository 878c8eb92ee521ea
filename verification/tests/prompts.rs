use kannaka_tui::prompts::{QOS_BOOT_GRAPHICAL_PROMPT, QOS_BOOT_PROMPT};

#[test]
fn golden_qos_prompt_tool_names() {
    // Tools common to both the serial and graphical /qos flows.
    for tool in [
        "lab_list_instances",
        "lab_list_profiles",
        "lab_provision_instance",
        "lab_ssh_configure",
        "lab_qos_boot",
        "lab_stop_instance",
    ] {
        assert!(
            QOS_BOOT_PROMPT.contains(tool),
            "QOS_BOOT_PROMPT no longer mentions {tool}"
        );
        assert!(
            QOS_BOOT_GRAPHICAL_PROMPT.contains(tool),
            "QOS_BOOT_GRAPHICAL_PROMPT no longer mentions {tool}"
        );
    }
    // Serial watch = lab_watch (terminal); graphical watch = lab_qos_watch
    // (browser). These are distinct tools on the kannaka-memory side.
    assert!(
        QOS_BOOT_PROMPT.contains("lab_watch"),
        "QOS_BOOT_PROMPT must use lab_watch for the serial console"
    );
    assert!(
        QOS_BOOT_GRAPHICAL_PROMPT.contains("lab_qos_watch"),
        "QOS_BOOT_GRAPHICAL_PROMPT must use lab_qos_watch for the browser view"
    );
    // The graphical prompt must actually ask for the graphical boot.
    assert!(
        QOS_BOOT_GRAPHICAL_PROMPT.contains("graphical=true"),
        "QOS_BOOT_GRAPHICAL_PROMPT must request graphical=true"
    );
    // Step 5: QuantumOS joins the swarm under its own signed identity. This
    // tool is graphical-only (the serial flow keeps COM1 as its console).
    assert!(
        QOS_BOOT_GRAPHICAL_PROMPT.contains("lab_qos_swarm_bridge"),
        "QOS_BOOT_GRAPHICAL_PROMPT must use lab_qos_swarm_bridge to join the swarm"
    );
}
