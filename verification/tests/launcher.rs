use gevulot_shim::config::Config;
use gevulot_shim::decimal::decimal_text;
use gevulot_shim::descriptor::Task;
use gevulot_shim::launcher::{vm_arguments, HYPERVISOR};

fn config() -> Config {
    Config {
        file: vec!["in.dat".to_string()],
        gpu: Vec::new(),
        smp: 1,
        mem: 512,
        workspace: "/tmp/ws".to_string(),
        task_id: "task01".to_string(),
        program: "/images/prog.img".to_string(),
        args: vec!["--x".to_string()],
    }
}

fn fixed_arguments(smp: &str, mem: &str, program: &str, workspace: &str) -> Vec<String> {
    [
        "-machine",
        "q35",
        "-device",
        "pcie-root-port,port=0x10,chassis=1,id=pci.1,bus=pcie.0,multifunction=on,addr=0x3",
        "-device",
        "pcie-root-port,port=0x11,chassis=2,id=pci.2,bus=pcie.0,addr=0x3.0x1",
        "-device",
        "pcie-root-port,port=0x12,chassis=3,id=pci.3,bus=pcie.0,addr=0x3.0x2",
        "-device",
        "virtio-scsi-pci,bus=pci.2,addr=0x0,id=scsi0",
        "-device",
        "scsi-hd,bus=scsi0.0,drive=hd0",
        "-vga",
        "none",
        "-smp",
        smp,
        "-device",
        "isa-debug-exit",
        "-m",
        mem,
        "-device",
        "virtio-rng-pci",
        "-machine",
        "accel=kvm:tcg",
        "-cpu",
        "max",
        "-drive",
        program,
        "-display",
        "none",
        "-serial",
        "stdio",
        "-virtfs",
        workspace,
    ]
    .iter()
    .map(|s| s.to_string())
    .collect()
}

#[test]
fn hypervisor_name() {
    assert_eq!(HYPERVISOR, "qemu-system-x86_64");
}

#[test]
fn arguments_without_passthrough() {
    let expected = fixed_arguments(
        "1",
        "512M",
        "file=/images/prog.img,format=raw,if=none,id=hd0,readonly=on",
        "local,path=/tmp/ws,mount_tag=0,security_model=none,multidevs=remap,id=hd0",
    );
    assert_eq!(vm_arguments(&config()), expected);
}

#[test]
fn arguments_with_passthrough_devices() {
    let mut c = config();
    c.gpu = vec!["0000:01:00.0".to_string(), "0000:02:00.0".to_string()];
    c.smp = 16;
    c.mem = 32768;
    let mut expected = fixed_arguments(
        "16",
        "32768M",
        "file=/images/prog.img,format=raw,if=none,id=hd0,readonly=on",
        "local,path=/tmp/ws,mount_tag=0,security_model=none,multidevs=remap,id=hd0",
    );
    for host in ["0000:01:00.0", "0000:02:00.0"] {
        expected.push("-device".to_string());
        expected.push(format!("vfio-pci,rombar=0,host={host}"));
    }
    assert_eq!(vm_arguments(&c), expected);
}

#[test]
fn arguments_at_the_limits_of_the_resources() {
    let mut c = config();
    c.smp = u16::MAX;
    c.mem = u32::MAX;
    c.program = String::new();
    c.workspace = String::new();
    let expected = fixed_arguments(
        "65535",
        "4294967295M",
        "file=,format=raw,if=none,id=hd0,readonly=on",
        "local,path=,mount_tag=0,security_model=none,multidevs=remap,id=hd0",
    );
    assert_eq!(vm_arguments(&c), expected);
    c.smp = 0;
    c.mem = 0;
    let args = vm_arguments(&c);
    assert_eq!(args[15], "0");
    assert_eq!(args[19], "0M");
}

#[test]
fn decimal_of_small_and_large_numbers() {
    assert_eq!(decimal_text(0), "0");
    assert_eq!(decimal_text(7), "7");
    assert_eq!(decimal_text(10), "10");
    assert_eq!(decimal_text(512), "512");
    assert_eq!(decimal_text(1_000_000), "1000000");
    assert_eq!(decimal_text(4_294_967_295), "4294967295");
}

#[test]
fn decimal_agrees_with_std() {
    let mut n: u32 = 0;
    while n < 3000 {
        assert_eq!(decimal_text(n), n.to_string());
        n += 1;
    }
    for n in [9_999u32, 10_000, 99_999, 100_000, 123_456_789, 1 << 31, u32::MAX - 1] {
        assert_eq!(decimal_text(n), n.to_string());
    }
}

#[test]
fn config_makes_the_task() {
    let c = config();
    assert_eq!(
        c.task(),
        Task {
            id: "task01".to_string(),
            args: vec!["--x".to_string()],
            files: vec!["in.dat".to_string()],
        }
    );
}

#[test]
fn config_places_the_descriptors() {
    let c = config();
    assert_eq!(c.task_file(), "/tmp/ws/task.json");
    assert_eq!(c.task_result_file(), "/tmp/ws/task_result.json");
    let mut c = config();
    c.workspace = "ws/".to_string();
    assert_eq!(c.task_file(), "ws/task.json");
    assert_eq!(c.task_result_file(), "ws/task_result.json");
}
