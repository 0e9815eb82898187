//! The command line that starts the guest under QEMU.
//!
//! The guest boots the program image read-only from a SCSI disk and gets the
//! workspace as a 9p share. Each device that is passed through adds one VFIO
//! device to the machine.

use vstd::prelude::*;
use vstd::string::*;
use crate::config::{Config, ConfigView};
use crate::decimal::{decimal, decimal_text};

verus! {

/// Name of the hypervisor's executable.
pub const HYPERVISOR: &'static str = "qemu-system-x86_64";

/// The arguments that describe the machine, up to the number of cores.
pub open spec fn machine_arguments() -> Seq<Seq<char>> {
    seq![
        "-machine"@,
        "q35"@,
        "-device"@,
        "pcie-root-port,port=0x10,chassis=1,id=pci.1,bus=pcie.0,multifunction=on,addr=0x3"@,
        "-device"@,
        "pcie-root-port,port=0x11,chassis=2,id=pci.2,bus=pcie.0,addr=0x3.0x1"@,
        "-device"@,
        "pcie-root-port,port=0x12,chassis=3,id=pci.3,bus=pcie.0,addr=0x3.0x2"@,
        "-device"@,
        "virtio-scsi-pci,bus=pci.2,addr=0x0,id=scsi0"@,
        "-device"@,
        "scsi-hd,bus=scsi0.0,drive=hd0"@,
        "-vga"@,
        "none"@,
    ]
}

/// The arguments that size the guest: `smp` cores and `mem` megabytes.
pub open spec fn resource_arguments(smp: nat, mem: nat) -> Seq<Seq<char>> {
    seq![
        "-smp"@,
        decimal(smp),
        "-device"@,
        "isa-debug-exit"@,
        "-m"@,
        decimal(mem) + "M"@,
        "-device"@,
        "virtio-rng-pci"@,
        "-machine"@,
        "accel=kvm:tcg"@,
        "-cpu"@,
        "max"@,
    ]
}

/// The arguments that attach the program image and the workspace.
pub open spec fn storage_arguments(program: Seq<char>, workspace: Seq<char>) -> Seq<Seq<char>> {
    seq![
        "-drive"@,
        "file="@ + program + ",format=raw,if=none,id=hd0,readonly=on"@,
        "-display"@,
        "none"@,
        "-serial"@,
        "stdio"@,
        "-virtfs"@,
        "local,path="@ + workspace
            + ",mount_tag=0,security_model=none,multidevs=remap,id=hd0"@,
    ]
}

/// The arguments that pass the devices `gpus` through, in their order.
pub open spec fn passthrough_arguments(gpus: Seq<Seq<char>>) -> Seq<Seq<char>>
    decreases gpus.len(),
{
    if gpus.len() == 0 {
        Seq::empty()
    } else {
        passthrough_arguments(gpus.drop_last()).push("-device"@).push(
            "vfio-pci,rombar=0,host="@ + gpus.last(),
        )
    }
}

/// All arguments of the hypervisor for a run with configuration `config`.
pub open spec fn vm_arguments_of(config: ConfigView) -> Seq<Seq<char>> {
    machine_arguments() + resource_arguments(config.smp, config.mem) + storage_arguments(
        config.program,
        config.workspace,
    ) + passthrough_arguments(config.gpu)
}

/// Appends a copy of `arg` to `args`.
fn push_text(args: &mut Vec<String>, arg: &str)
    ensures
        final(args).deep_view() == old(args).deep_view().push(arg@),
{
    args.push(String::from_str(arg));
    assert(args.deep_view() =~= old(args).deep_view().push(arg@));
}

/// Appends `head`, `middle` and `tail`, put together as one argument, to
/// `args`.
fn push_framed(args: &mut Vec<String>, head: &str, middle: &str, tail: &str)
    ensures
        final(args).deep_view() == old(args).deep_view().push(head@ + middle@ + tail@),
{
    let mut arg = String::from_str(head);
    arg.append(middle);
    arg.append(tail);
    args.push(arg);
    assert(args.deep_view() =~= old(args).deep_view().push(head@ + middle@ + tail@));
}

/// The arguments with which the hypervisor is started for `config`.
pub fn vm_arguments(config: &Config) -> (args: Vec<String>)
    ensures
        args.deep_view() == vm_arguments_of(config@),
{
    let mut args: Vec<String> = Vec::new();
    assert(args.deep_view() =~= Seq::empty());
    push_text(&mut args, "-machine");
    push_text(&mut args, "q35");
    push_text(&mut args, "-device");
    push_text(
        &mut args,
        "pcie-root-port,port=0x10,chassis=1,id=pci.1,bus=pcie.0,multifunction=on,addr=0x3",
    );
    push_text(&mut args, "-device");
    push_text(&mut args, "pcie-root-port,port=0x11,chassis=2,id=pci.2,bus=pcie.0,addr=0x3.0x1");
    push_text(&mut args, "-device");
    push_text(&mut args, "pcie-root-port,port=0x12,chassis=3,id=pci.3,bus=pcie.0,addr=0x3.0x2");
    push_text(&mut args, "-device");
    push_text(&mut args, "virtio-scsi-pci,bus=pci.2,addr=0x0,id=scsi0");
    push_text(&mut args, "-device");
    push_text(&mut args, "scsi-hd,bus=scsi0.0,drive=hd0");
    push_text(&mut args, "-vga");
    push_text(&mut args, "none");
    assert(args.deep_view() =~= machine_arguments());

    let smp = decimal_text(config.smp as u32);
    let mem = decimal_text(config.mem);
    push_text(&mut args, "-smp");
    push_text(&mut args, smp.as_str());
    push_text(&mut args, "-device");
    push_text(&mut args, "isa-debug-exit");
    push_text(&mut args, "-m");
    push_framed(&mut args, "", mem.as_str(), "M");
    push_text(&mut args, "-device");
    push_text(&mut args, "virtio-rng-pci");
    push_text(&mut args, "-machine");
    push_text(&mut args, "accel=kvm:tcg");
    push_text(&mut args, "-cpu");
    push_text(&mut args, "max");
    proof {
        reveal_strlit("");
        assert(""@ + mem@ + "M"@ =~= decimal(config.mem as nat) + "M"@);
        assert(args.deep_view() =~= machine_arguments() + resource_arguments(
            config@.smp,
            config@.mem,
        ));
    }

    push_text(&mut args, "-drive");
    push_framed(
        &mut args,
        "file=",
        config.program.as_str(),
        ",format=raw,if=none,id=hd0,readonly=on",
    );
    push_text(&mut args, "-display");
    push_text(&mut args, "none");
    push_text(&mut args, "-serial");
    push_text(&mut args, "stdio");
    push_text(&mut args, "-virtfs");
    push_framed(
        &mut args,
        "local,path=",
        config.workspace.as_str(),
        ",mount_tag=0,security_model=none,multidevs=remap,id=hd0",
    );
    let ghost fixed = machine_arguments() + resource_arguments(config@.smp, config@.mem)
        + storage_arguments(config@.program, config@.workspace);
    assert(args.deep_view() =~= fixed);

    let mut i: usize = 0;
    while i < config.gpu.len()
        invariant
            i <= config.gpu.len(),
            args.deep_view() == fixed + passthrough_arguments(
                config.gpu.deep_view().take(i as int),
            ),
        decreases config.gpu.len() - i,
    {
        let ghost before = config.gpu.deep_view().take(i as int);
        let ghost after = config.gpu.deep_view().take(i + 1);
        push_text(&mut args, "-device");
        push_framed(&mut args, "vfio-pci,rombar=0,host=", config.gpu[i].as_str(), "");
        proof {
            reveal_strlit("");
            assert(after.drop_last() =~= before);
            assert(after.last() == config.gpu[i as int]@);
            assert("vfio-pci,rombar=0,host="@ + config.gpu[i as int]@ + ""@
                =~= "vfio-pci,rombar=0,host="@ + config.gpu[i as int]@);
            assert(args.deep_view() =~= fixed + passthrough_arguments(after));
        }
        i += 1;
    }
    assert(config.gpu.deep_view().take(i as int) =~= config.gpu.deep_view());
    args
}

} // verus!
