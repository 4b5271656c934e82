use llama_launcher::devices::{
    add_device, add_unlisted_device, device_id, device_listed, device_vendor, rpc_devices, server_device_lines, DeviceVendor,
};
use llama_launcher::service::{
    build_systemd_service_file, service_home, service_state, service_unit_listed, service_user,
    systemctl_outcome, uninstall_after_reload, uninstall_after_remove, uninstall_after_stop,
    uninstall_start, UninstallStep,
};
use llama_launcher::session::{is_remote_desktop, log_file_name, startup_flags, SessionEnv};
use llama_launcher::text::{concat_text, same_text, trimmed_chars};

const TEMPLATE: &str = "[Unit]\nDescription=llama-server\n\n\n[Service]\nUser=your-username\nWorkingDirectory=/home/your-username/llama\nExecStart=/old/llama-server \\\n    --port 1 \\\n    --host x\n\nRestart=always\n";

#[test]
fn service_file_from_template() {
    let out = build_systemd_service_file(TEMPLATE, "/opt/llama-server --port 9931", "alice", "/srv/alice");
    assert_eq!(
        out,
        "[Unit]\nDescription=llama-server\n\n[Service]\nUser=alice\nWorkingDirectory=/srv/alice/llama\nExecStart=/opt/llama-server --port 9931\n\nRestart=always"
    );
}

#[test]
fn service_file_fills_in_home_and_user() {
    let out = build_systemd_service_file(
        "WorkingDirectory=/home/your-username\nUser=your-username",
        "x",
        "alice",
        "/data/alice",
    );
    assert_eq!(out, "WorkingDirectory=/data/alice\nUser=alice");
}

#[test]
fn service_file_keeps_crlf_free_lines() {
    let out = build_systemd_service_file("A\r\nB\n   \n\nC", "x", "u", "/h");
    assert_eq!(out, "A\nB\n   \nC");
    assert_eq!(build_systemd_service_file("", "x", "u", "/h"), "");
}

#[test]
fn service_user_and_home() {
    assert_eq!(service_user(Some("alice".to_string()), Some("bob".to_string())), "alice");
    assert_eq!(service_user(None, Some("bob".to_string())), "bob");
    assert_eq!(service_user(None, None), "your-username");
    assert_eq!(service_home(Some("/srv/alice".to_string()), "alice"), "/srv/alice");
    assert_eq!(service_home(None, "alice"), "/home/alice");
}

#[test]
fn service_states() {
    assert_eq!(service_state("active\n"), "running");
    assert_eq!(service_state("inactive"), "stopped");
    assert_eq!(service_state(" failed "), "stopped");
    assert_eq!(service_state("activating"), "unknown");
    assert_eq!(service_state(""), "unknown");
    assert!(service_unit_listed("UNIT FILE\nllama-server.service enabled\n"));
    assert!(!service_unit_listed("0 unit files listed."));
}

#[test]
fn device_list_lines() {
    let out = "ggml_cuda_init: found 1 device\nAvailable devices:\n  CUDA0: NVIDIA GeForce RTX 3090 (24576 MiB, 23000 MiB free)\n  Vulkan1: AMD Radeon\n  nothing here\n";
    assert_eq!(
        server_device_lines(out),
        vec!["CUDA0: NVIDIA GeForce RTX 3090 (24576 MiB, 23000 MiB free)", "Vulkan1: AMD Radeon"]
    );
    assert!(server_device_lines("").is_empty());
    assert_eq!(device_id("  CUDA0: NVIDIA"), "CUDA0");
    assert_eq!(device_id("plain"), "plain");
}

#[test]
fn device_vendors() {
    assert_eq!(device_vendor("CUDA0: NVIDIA GeForce RTX 3090"), DeviceVendor::Nvidia);
    assert_eq!(device_vendor("Vulkan1: AMD Radeon RX 7900"), DeviceVendor::Amd);
    assert_eq!(device_vendor("SYCL0: Intel(R) Arc(TM) A770"), DeviceVendor::Intel);
    assert_eq!(device_vendor("Vulkan2: INTEL UHD"), DeviceVendor::Intel);
    assert_eq!(device_vendor("Metal: Apple M2"), DeviceVendor::Other);
    assert_eq!(device_vendor("Vulkan0: AMD card next to an NVIDIA one"), DeviceVendor::Amd);
}

#[test]
fn device_add_button_keeps_entries_once() {
    assert_eq!(add_unlisted_device("", "CUDA0"), "CUDA0");
    assert_eq!(add_unlisted_device("CUDA0", "RPC0"), "CUDA0,RPC0");
    assert_eq!(add_unlisted_device("CUDA0, RPC0", "RPC0"), "CUDA0, RPC0");
    let once = add_unlisted_device("CUDA0", "RPC1");
    assert_eq!(add_unlisted_device(&once, "RPC1"), once);
}

#[test]
fn device_list_editing() {
    assert_eq!(add_device("", "CUDA0"), "CUDA0");
    assert_eq!(add_device("CUDA0", "RPC1"), "CUDA0,RPC1");
    assert!(device_listed("CUDA0, RPC1", "RPC1"));
    assert!(device_listed(&add_device("CUDA0", "RPC1"), "RPC1"));
    assert!(!device_listed("CUDA0,RPC10", "RPC1"));
    assert!(!device_listed("", "CUDA0"));
}

#[test]
fn rpc_device_entries() {
    let d = rpc_devices(" 10.0.0.1:50052, ,10.0.0.2:50052++,host:1+");
    let got: Vec<(usize, &str, bool)> = d.iter().map(|e| (e.index, e.address.as_str(), e.multi_gpu)).collect();
    assert_eq!(
        got,
        vec![
            (0, "10.0.0.1:50052", false),
            (1, "10.0.0.2:50052", true),
            (2, "10.0.0.2:50052", true),
            (3, "host:1", true),
            (4, "host:1", true),
        ]
    );
    assert!(rpc_devices("").is_empty());
}

#[test]
fn remote_sessions() {
    let local = SessionEnv {
        xdg_session_type: "wayland".to_string(),
        session_name: "Console".to_string(),
        xrdp_session: false,
        vnc_desktop: false,
        x2go_session: false,
        remote_desktop: false,
        display: ":0".to_string(),
    };
    assert!(!is_remote_desktop(&local));
    let mut rdp = local.clone();
    rdp.session_name = "rdp-tcp#0".to_string();
    assert!(is_remote_desktop(&rdp));
    rdp.session_name = "Rdp-Tcp#1".to_string();
    assert!(is_remote_desktop(&rdp));
    let mut remote = local.clone();
    remote.xdg_session_type = "remote-x".to_string();
    assert!(is_remote_desktop(&remote));
    let mut x11 = local.clone();
    x11.xdg_session_type = "x11".to_string();
    x11.display = String::new();
    assert!(is_remote_desktop(&x11));
    let mut vnc = local.clone();
    vnc.vnc_desktop = true;
    assert!(is_remote_desktop(&vnc));
    assert_eq!(startup_flags(None), (false, true));
    assert_eq!(startup_flags(Some((true, false))), (true, false));
    assert_eq!(log_file_name("20240101_120000"), "llama_launcher_20240101_120000.log");
}

#[test]
fn text_helpers() {
    assert_eq!(concat_text("ab", "cd"), "abcd");
    assert!(same_text("x", "x"));
    assert!(!same_text("x", "X"));
    assert_eq!(trimmed_chars("\u{a0} a b \u{2003}"), vec!['a', ' ', 'b']);
}

#[test]
fn systemctl_outcomes() {
    assert_eq!(systemctl_outcome(true, "ok\n".to_string(), "warn".to_string()), Ok("ok\n".to_string()));
    assert_eq!(systemctl_outcome(false, String::new(), "denied".to_string()), Err("denied".to_string()));
    assert_eq!(systemctl_outcome(false, String::new(), String::new()), Err("操作被取消".to_string()));
}

#[test]
fn uninstall_steps() {
    assert!(matches!(uninstall_start("running"), UninstallStep::Stop));
    assert!(matches!(uninstall_start("stopped"), UninstallStep::RemoveUnit));
    assert!(matches!(uninstall_after_stop(Ok(String::new())), UninstallStep::RemoveUnit));
    assert!(matches!(uninstall_after_stop(Err("no".to_string())), UninstallStep::Done(Err(e)) if e == "no"));
    assert!(matches!(uninstall_after_remove(true, String::new()), UninstallStep::Reload));
    assert!(matches!(uninstall_after_remove(false, String::new()), UninstallStep::Done(Err(e)) if e == "删除服务文件失败"));
    assert!(matches!(uninstall_after_remove(false, "rm: x".to_string()), UninstallStep::Done(Err(e)) if e == "rm: x"));
    assert!(matches!(uninstall_after_reload(), UninstallStep::Done(Ok(m)) if m == "服务已卸载"));
}
