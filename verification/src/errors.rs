//! Errors that stop a micro-VM from starting, and those of the hypervisor
//! partition and vCPUs, each with the message shown to the user. Errors of
//! outside components travel as the text they display.

use vstd::prelude::*;
use vstd::string::*;
use std::io::Error as IoError;
use crate::config::{concat_message, io_error_text, io_error_debug_text};
use crate::text::{strip_quotes, without_quotes, format_radix, radix_digits, lemma_without_quotes_has_none};
use crate::mmio::{MmioError, mmio_error_text, mmio_error_full};
use crate::shm::ShmError;

verus! {

/// `s` begins with `p`.
pub open spec fn starts_with(s: Seq<char>, p: Seq<char>) -> bool {
    s.len() >= p.len() && s.subrange(0, p.len() as int) == p
}

/// No `"` occurs in `s` from position `from` on.
pub open spec fn quote_free_from(s: Seq<char>, from: int) -> bool {
    forall|i: int| from <= i < s.len() ==> s[i] != '"'
}

/// `prefix` followed by `text` without quotes.
fn with_stripped(prefix: &str, text: &str) -> (s: String)
    ensures
        s@ == prefix@ + without_quotes(text@),
        starts_with(s@, prefix@),
        quote_free_from(s@, prefix@.len() as int),
{
    let u = strip_quotes(text);
    let s = concat_message(prefix, u.as_str());
    proof {
        lemma_without_quotes_has_none(text@);
        assert(s@.subrange(0, prefix@.len() as int) =~= prefix@);
        assert forall|i: int| prefix@.len() <= i < s@.len() implies s@[i] != '"' by {
            assert(s@[i] == without_quotes(text@)[i - prefix@.len()]);
        }
    }
    s
}

/// Errors of the hypervisor partition and its vCPUs.
#[derive(Debug)]
pub enum VmError {
    /// Invalid guest memory configuration; the memory error's debug text.
    GuestMemoryMmap(String),
    /// Cannot set the memory regions.
    SetUserMemoryRegion,
    /// Cannot configure the micro-VM.
    VmSetup,
    /// Cannot configure vCPU state.
    VcpuConfigure,
    /// Cannot run the vCPUs.
    VcpuRun,
    /// Cannot spawn a new vCPU thread.
    VcpuSpawn(IoError),
}

pub open spec fn vm_error_prefix(e: &VmError) -> Seq<char> {
    match e {
        VmError::GuestMemoryMmap(_) => "Guest memory error: "@,
        VmError::SetUserMemoryRegion => "Cannot set the memory regions"@,
        VmError::VmSetup => "Cannot configure the microvm"@,
        VmError::VcpuConfigure => "Cannot configure the VCPU"@,
        VmError::VcpuRun => "Cannot run the VCPUs"@,
        VmError::VcpuSpawn(_) => "Cannot spawn a new vCPU thread: "@,
    }
}

/// The whole message, where it does not depend on an I/O error's text.
pub open spec fn vm_error_text(e: &VmError) -> Option<Seq<char>> {
    match e {
        VmError::GuestMemoryMmap(t) => Some(vm_error_prefix(e) + t@),
        VmError::VcpuSpawn(_) => None,
        _ => Some(vm_error_prefix(e)),
    }
}

/// The whole message, given the `Display` text of the I/O error it carries
/// (used only by `VcpuSpawn`).
pub open spec fn vm_error_full(e: &VmError, io_text: Seq<char>) -> Seq<char> {
    match e {
        VmError::VcpuSpawn(_) => vm_error_prefix(e) + io_text,
        _ => vm_error_text(e).unwrap(),
    }
}

impl VmError {
    /// The message shown to the user, given the `Display` text of the I/O
    /// error the error carries (ignored by the other variants).
    pub fn message_with_io_text(&self, io_text: &str) -> (s: String)
        ensures
            s@ == vm_error_full(self, io_text@),
            starts_with(s@, vm_error_prefix(self)),
    {
        let s = match self {
            VmError::GuestMemoryMmap(t) => concat_message("Guest memory error: ", t.as_str()),
            VmError::SetUserMemoryRegion => String::from_str("Cannot set the memory regions"),
            VmError::VmSetup => String::from_str("Cannot configure the microvm"),
            VmError::VcpuConfigure => String::from_str("Cannot configure the VCPU"),
            VmError::VcpuRun => String::from_str("Cannot run the VCPUs"),
            VmError::VcpuSpawn(_) => concat_message("Cannot spawn a new vCPU thread: ", io_text),
        };
        assert(s@.subrange(0, vm_error_prefix(self).len() as int) =~= vm_error_prefix(self));
        s
    }

    /// The message shown to the user.
    pub fn message(&self) -> (s: String)
        ensures
            starts_with(s@, vm_error_prefix(self)),
            vm_error_text(self) matches Some(t) ==> s@ == t,
    {
        let t = match self {
            VmError::VcpuSpawn(e) => io_error_text(e),
            _ => String::new(),
        };
        self.message_with_io_text(t.as_str())
    }
}

/// `Debug` name of a shared-memory error.
pub open spec fn shm_error_name(e: ShmError) -> Seq<char> {
    match e {
        ShmError::DuplicatedGpuRegion => "DuplicatedGpuRegion"@,
        ShmError::OutOfSpace => "OutOfSpace"@,
    }
}

fn shm_error_name_text(e: ShmError) -> (s: &'static str)
    ensures
        s@ == shm_error_name(e),
{
    match e {
        ShmError::DuplicatedGpuRegion => "DuplicatedGpuRegion",
        ShmError::OutOfSpace => "OutOfSpace",
    }
}

/// Errors that stop a micro-VM from starting.
#[derive(Debug)]
pub enum StartMicrovmError {
    /// Unable to attach block device to Vmm.
    AttachBlockDevice(IoError),
    /// Failed to create a rate limiter.
    CreateRateLimiter(IoError),
    /// Cannot open the file containing the kernel code.
    ElfOpenKernel(IoError),
    /// Cannot load the kernel into the VM; the loader's error text.
    ElfLoadKernel(String),
    /// The firmware can't be loaded at its address; the memory error's text.
    FirmwareInvalidAddress(String),
    /// Cannot read firmware contents from file.
    FirmwareRead(IoError),
    /// Memory regions overlap or cannot be mapped; the memory error's debug text.
    GuestMemoryMmap(String),
    /// Cannot create or size the snapshot guest-RAM backing file.
    SnapshotMemFile(IoError),
    /// The BZIP2 decoder couldn't decompress the kernel.
    ImageBz2Decoder(IoError),
    /// Cannot find the compressed kernel in the file.
    ImageBz2Invalid,
    /// Cannot load the kernel from the uncompressed ELF data; the loader's error text.
    ImageBz2LoadKernel(String),
    /// Cannot open the file containing the kernel code.
    ImageBz2OpenKernel(IoError),
    /// The GZIP decoder couldn't decompress the kernel.
    ImageGzDecoder(IoError),
    /// Cannot find the compressed kernel in the file.
    ImageGzInvalid,
    /// Cannot load the kernel from the uncompressed ELF data; the loader's error text.
    ImageGzLoadKernel(String),
    /// Cannot open the file containing the kernel code.
    ImageGzOpenKernel(IoError),
    /// The ZSTD decoder couldn't decompress the kernel.
    ImageZstdDecoder(IoError),
    /// Cannot find the compressed kernel in the file.
    ImageZstdInvalid,
    /// Cannot load the kernel from the uncompressed ELF data; the loader's error text.
    ImageZstdLoadKernel(String),
    /// Cannot open the file containing the kernel code.
    ImageZstdOpenKernel(IoError),
    /// Cannot load initrd due to an invalid memory configuration.
    InitrdLoad,
    /// Cannot load initrd due to an invalid image.
    InitrdRead(IoError),
    /// Internal error while starting the micro-VM; the error's debug text.
    Internal(String),
    /// Cannot inject the kernel into guest memory because of the bundle.
    InvalidKernelBundle(IoError),
    /// The kernel command line is invalid.
    KernelCmdline(String),
    /// The kernel doesn't fit into the micro-VM memory: load address and size.
    KernelDoesNotFit(u64, usize),
    /// The supplied kernel format is not supported.
    KernelFormatUnsupported,
    /// Cannot load the command line string; the loader's error text.
    LoadCommandline(String),
    /// The start command was issued more than once.
    MicroVMAlreadyRunning,
    /// Cannot start the VM because the kernel was not configured.
    MissingKernelConfig,
    /// Cannot start the VM because the guest memory size was not specified.
    MissingMemSizeConfig,
    /// The net device configuration is missing the tap device.
    NetDeviceNotConfigured,
    /// Cannot open the block device backing file.
    OpenBlockDevice(IoError),
    /// Cannot open the console output file.
    OpenConsoleFile(IoError),
    /// The GZIP decoder couldn't decompress the kernel.
    PeGzDecoder(IoError),
    /// Cannot open the file containing the kernel code.
    PeGzOpenKernel(IoError),
    /// Cannot find the compressed kernel in the file.
    PeGzInvalid,
    /// Cannot open the file containing the kernel code.
    RawOpenKernel(IoError),
    /// Cannot initialize the balloon device or add it to the MMIO bus.
    RegisterBalloonDevice(MmioError),
    /// Cannot initialize a block device or add it to the MMIO bus.
    RegisterBlockDevice(MmioError),
    /// Cannot register an event handler; the error's debug text.
    RegisterEvent(String),
    /// Cannot initialize an fs device or add it to the MMIO bus.
    RegisterFsDevice(MmioError),
    /// Cannot initialize a console device or add it to the MMIO bus.
    RegisterConsoleDevice(MmioError),
    /// Cannot initialize the GPU device or add it to the MMIO bus.
    RegisterGpuDevice(MmioError),
    /// Cannot initialize an input device or add it to the MMIO bus.
    RegisterInputDevice(MmioError),
    /// Cannot initialize a network device or add it to the MMIO bus.
    RegisterNetDevice(MmioError),
    /// Cannot initialize the rng device or add it to the MMIO bus.
    RegisterRngDevice(MmioError),
    /// Cannot initialize the sound device or add it to the MMIO bus.
    RegisterSndDevice(MmioError),
    /// Cannot initialize the vsock device or add it to the MMIO bus.
    RegisterVsockDevice(MmioError),
    /// Cannot restore VM or vCPU state from a snapshot.
    RestoreState(VmError),
    /// Cannot attest the VM in the secure virtualization context.
    SecureVirtAttest(VmError),
    /// Cannot initialize the secure virtualization back end.
    SecureVirtPrepare(VmError),
    /// Error configuring an SHM region.
    ShmConfig(ShmError),
    /// Error creating an SHM region.
    ShmCreate(ShmError),
    /// Error obtaining the host address of an SHM region; the memory error's debug text.
    ShmHostAddr(String),
    /// The TEE specified is not supported.
    InvalidTee,
}

/// Fixed start of each error's message.
pub open spec fn start_error_prefix(e: &StartMicrovmError) -> Seq<char> {
    match e {
        StartMicrovmError::AttachBlockDevice(..) => "Unable to attach block device to Vmm. Error: "@,
        StartMicrovmError::CreateRateLimiter(..) => "Cannot create RateLimiter: "@,
        StartMicrovmError::ElfOpenKernel(..) => "Cannot open the file containing the kernel code: "@,
        StartMicrovmError::ElfLoadKernel(..) => "Cannot load the kernel into the VM: "@,
        StartMicrovmError::FirmwareInvalidAddress(..) => "The firmware can't be loaded into the guest memory: "@,
        StartMicrovmError::FirmwareRead(..) => "Cannot read firmware contents from file: "@,
        StartMicrovmError::GuestMemoryMmap(..) => "Invalid Memory Configuration: "@,
        StartMicrovmError::SnapshotMemFile(..) => "Cannot create snapshot guest-RAM backing file: "@,
        StartMicrovmError::ImageBz2Decoder(..) => "The BZIP2 decoder couldn't decompress the kernel. "@,
        StartMicrovmError::ImageBz2Invalid => "Cannot find compressed kernel in file."@,
        StartMicrovmError::ImageBz2LoadKernel(..) => "Cannot load the kernel from the uncompressed ELF data. "@,
        StartMicrovmError::ImageBz2OpenKernel(..) => "Cannot open the file containing the kernel code. "@,
        StartMicrovmError::ImageGzDecoder(..) => "The GZIP decoder couldn't decompress the kernel. "@,
        StartMicrovmError::ImageGzInvalid => "Cannot find compressed kernel in file."@,
        StartMicrovmError::ImageGzLoadKernel(..) => "Cannot load the kernel from the uncompressed ELF data. "@,
        StartMicrovmError::ImageGzOpenKernel(..) => "Cannot open the file containing the kernel code. "@,
        StartMicrovmError::ImageZstdDecoder(..) => "The ZSTD decoder couldn't decompress the kernel. "@,
        StartMicrovmError::ImageZstdInvalid => "Cannot find compressed kernel in file."@,
        StartMicrovmError::ImageZstdLoadKernel(..) => "Cannot load the kernel from the uncompressed ELF data. "@,
        StartMicrovmError::ImageZstdOpenKernel(..) => "Cannot open the file containing the kernel code. "@,
        StartMicrovmError::InitrdLoad => "Cannot load initrd due to an invalid memory configuration."@,
        StartMicrovmError::InitrdRead(..) => "Cannot load initrd due to an invalid image: "@,
        StartMicrovmError::Internal(..) => "Internal error while starting microVM: "@,
        StartMicrovmError::InvalidKernelBundle(..) => "Cannot inject the kernel into the guest memory due to a problem with the bundle. "@,
        StartMicrovmError::KernelCmdline(..) => "Invalid kernel command line: "@,
        StartMicrovmError::KernelDoesNotFit(..) => "The kernel doesn't fit in the microVM memory (load_addr="@,
        StartMicrovmError::KernelFormatUnsupported => "The supplied kernel format is not supported."@,
        StartMicrovmError::LoadCommandline(..) => "Cannot load command line string. "@,
        StartMicrovmError::MicroVMAlreadyRunning => "Microvm already running."@,
        StartMicrovmError::MissingKernelConfig => "Cannot start microvm without kernel configuration."@,
        StartMicrovmError::MissingMemSizeConfig => "Cannot start microvm without guest mem_size config."@,
        StartMicrovmError::NetDeviceNotConfigured => "The net device configuration is missing the tap device."@,
        StartMicrovmError::OpenBlockDevice(..) => "Cannot open the block device backing file. "@,
        StartMicrovmError::OpenConsoleFile(..) => "Cannot open the console output file. "@,
        StartMicrovmError::PeGzDecoder(..) => "The GZIP decoder couldn't decompress the kernel. "@,
        StartMicrovmError::PeGzOpenKernel(..) => "Cannot open the file containing the kernel code. "@,
        StartMicrovmError::PeGzInvalid => "Cannot find compressed kernel in file."@,
        StartMicrovmError::RawOpenKernel(..) => "Cannot open the file containing the kernel code: "@,
        StartMicrovmError::RegisterBalloonDevice(..) => "Cannot initialize a MMIO Balloon Device or add a device to the MMIO Bus. "@,
        StartMicrovmError::RegisterBlockDevice(..) => "Cannot initialize a MMIO Block Device or add a device to the MMIO Bus. "@,
        StartMicrovmError::RegisterEvent(..) => "Cannot register EventHandler. "@,
        StartMicrovmError::RegisterFsDevice(..) => "Cannot initialize a MMIO Fs Device or add a device to the MMIO Bus. "@,
        StartMicrovmError::RegisterConsoleDevice(..) => "Cannot initialize a MMIO Console Device or add a device to the MMIO Bus. "@,
        StartMicrovmError::RegisterGpuDevice(..) => "Cannot initialize a MMIO Gpu Device or add a device to the MMIO Bus. "@,
        StartMicrovmError::RegisterInputDevice(..) => "Cannot initialize a MMIO Input Device or add a device to the MMIO Bus. "@,
        StartMicrovmError::RegisterNetDevice(..) => "Cannot initialize a MMIO Network Device or add a device to the MMIO Bus. "@,
        StartMicrovmError::RegisterRngDevice(..) => "Cannot initialize a MMIO Rng Device or add a device to the MMIO Bus. "@,
        StartMicrovmError::RegisterSndDevice(..) => "Cannot initialize a MMIO Snd Device or add a device to the MMIO Bus. "@,
        StartMicrovmError::RegisterVsockDevice(..) => "Cannot initialize a MMIO Vsock Device or add a device to the MMIO Bus. "@,
        StartMicrovmError::RestoreState(..) => "Cannot restore VM/vCPU state from snapshot. "@,
        StartMicrovmError::SecureVirtAttest(..) => "Cannot attest the VM in the Secure Virtualization context. "@,
        StartMicrovmError::SecureVirtPrepare(..) => "Cannot initialize the Secure Virtualization backend. "@,
        StartMicrovmError::ShmConfig(..) => "Error while configuring an SHM region. "@,
        StartMicrovmError::ShmCreate(..) => "Error while creating an SHM region. "@,
        StartMicrovmError::ShmHostAddr(..) => "Error obtaining the host address of an SHM region. "@,
        StartMicrovmError::InvalidTee => "TEE selected is not currently supported"@,
    }
}

/// The whole message, where it does not depend on an I/O error's text.
pub open spec fn start_error_text(e: &StartMicrovmError) -> Option<Seq<char>> {
    match e {
        StartMicrovmError::AttachBlockDevice(_) => None,
        StartMicrovmError::CreateRateLimiter(_) => None,
        StartMicrovmError::ElfOpenKernel(_) => None,
        StartMicrovmError::ElfLoadKernel(t) => Some(start_error_prefix(e) + t@),
        StartMicrovmError::FirmwareInvalidAddress(t) => Some(start_error_prefix(e) + t@),
        StartMicrovmError::FirmwareRead(_) => None,
        StartMicrovmError::GuestMemoryMmap(t) => Some(start_error_prefix(e) + without_quotes(t@)),
        StartMicrovmError::SnapshotMemFile(_) => None,
        StartMicrovmError::ImageBz2Decoder(_) => None,
        StartMicrovmError::ImageBz2Invalid => Some(start_error_prefix(e)),
        StartMicrovmError::ImageBz2LoadKernel(t) => Some(start_error_prefix(e) + t@),
        StartMicrovmError::ImageBz2OpenKernel(_) => None,
        StartMicrovmError::ImageGzDecoder(_) => None,
        StartMicrovmError::ImageGzInvalid => Some(start_error_prefix(e)),
        StartMicrovmError::ImageGzLoadKernel(t) => Some(start_error_prefix(e) + t@),
        StartMicrovmError::ImageGzOpenKernel(_) => None,
        StartMicrovmError::ImageZstdDecoder(_) => None,
        StartMicrovmError::ImageZstdInvalid => Some(start_error_prefix(e)),
        StartMicrovmError::ImageZstdLoadKernel(t) => Some(start_error_prefix(e) + t@),
        StartMicrovmError::ImageZstdOpenKernel(_) => None,
        StartMicrovmError::InitrdLoad => Some(start_error_prefix(e)),
        StartMicrovmError::InitrdRead(_) => None,
        StartMicrovmError::Internal(t) => Some(start_error_prefix(e) + t@),
        StartMicrovmError::InvalidKernelBundle(_) => None,
        StartMicrovmError::KernelCmdline(t) => Some(start_error_prefix(e) + t@),
        StartMicrovmError::KernelDoesNotFit(load_addr, size) => Some(
            start_error_prefix(e) + radix_digits(*load_addr as nat, 10) + ", size="@ + radix_digits(
                *size as nat,
                10,
            ) + ")"@,
        ),
        StartMicrovmError::KernelFormatUnsupported => Some(start_error_prefix(e)),
        StartMicrovmError::LoadCommandline(t) => Some(start_error_prefix(e) + without_quotes(t@)),
        StartMicrovmError::MicroVMAlreadyRunning => Some(start_error_prefix(e)),
        StartMicrovmError::MissingKernelConfig => Some(start_error_prefix(e)),
        StartMicrovmError::MissingMemSizeConfig => Some(start_error_prefix(e)),
        StartMicrovmError::NetDeviceNotConfigured => Some(start_error_prefix(e)),
        StartMicrovmError::OpenBlockDevice(_) => None,
        StartMicrovmError::OpenConsoleFile(_) => None,
        StartMicrovmError::PeGzDecoder(_) => None,
        StartMicrovmError::PeGzOpenKernel(_) => None,
        StartMicrovmError::PeGzInvalid => Some(start_error_prefix(e)),
        StartMicrovmError::RawOpenKernel(_) => None,
        StartMicrovmError::RegisterBalloonDevice(m) => match mmio_error_text(m) {
            Some(t) => Some(start_error_prefix(e) + without_quotes(t)),
            None => None,
        },
        StartMicrovmError::RegisterBlockDevice(m) => match mmio_error_text(m) {
            Some(t) => Some(start_error_prefix(e) + without_quotes(t)),
            None => None,
        },
        StartMicrovmError::RegisterEvent(t) => Some(start_error_prefix(e) + t@),
        StartMicrovmError::RegisterFsDevice(m) => match mmio_error_text(m) {
            Some(t) => Some(start_error_prefix(e) + without_quotes(t)),
            None => None,
        },
        StartMicrovmError::RegisterConsoleDevice(m) => match mmio_error_text(m) {
            Some(t) => Some(start_error_prefix(e) + without_quotes(t)),
            None => None,
        },
        StartMicrovmError::RegisterGpuDevice(m) => match mmio_error_text(m) {
            Some(t) => Some(start_error_prefix(e) + without_quotes(t)),
            None => None,
        },
        StartMicrovmError::RegisterInputDevice(m) => match mmio_error_text(m) {
            Some(t) => Some(start_error_prefix(e) + without_quotes(t)),
            None => None,
        },
        StartMicrovmError::RegisterNetDevice(m) => match mmio_error_text(m) {
            Some(t) => Some(start_error_prefix(e) + without_quotes(t)),
            None => None,
        },
        StartMicrovmError::RegisterRngDevice(m) => match mmio_error_text(m) {
            Some(t) => Some(start_error_prefix(e) + without_quotes(t)),
            None => None,
        },
        StartMicrovmError::RegisterSndDevice(m) => match mmio_error_text(m) {
            Some(t) => Some(start_error_prefix(e) + without_quotes(t)),
            None => None,
        },
        StartMicrovmError::RegisterVsockDevice(m) => match mmio_error_text(m) {
            Some(t) => Some(start_error_prefix(e) + without_quotes(t)),
            None => None,
        },
        StartMicrovmError::RestoreState(v) => match vm_error_text(v) {
            Some(t) => Some(start_error_prefix(e) + without_quotes(t)),
            None => None,
        },
        StartMicrovmError::SecureVirtAttest(v) => match vm_error_text(v) {
            Some(t) => Some(start_error_prefix(e) + without_quotes(t)),
            None => None,
        },
        StartMicrovmError::SecureVirtPrepare(v) => match vm_error_text(v) {
            Some(t) => Some(start_error_prefix(e) + without_quotes(t)),
            None => None,
        },
        StartMicrovmError::ShmConfig(s) => Some(start_error_prefix(e) + shm_error_name(*s)),
        StartMicrovmError::ShmCreate(s) => Some(start_error_prefix(e) + shm_error_name(*s)),
        StartMicrovmError::ShmHostAddr(t) => Some(start_error_prefix(e) + without_quotes(t@)),
        StartMicrovmError::InvalidTee => Some(start_error_prefix(e)),
    }
}

/// Errors whose text after the fixed start is an inner error's text with
/// every `"` removed.
pub open spec fn start_error_strips_quotes(e: &StartMicrovmError) -> bool {
    ||| e is GuestMemoryMmap
    ||| e is InvalidKernelBundle
    ||| e is LoadCommandline
    ||| e is OpenBlockDevice
    ||| e is OpenConsoleFile
    ||| e is RegisterBalloonDevice
    ||| e is RegisterBlockDevice
    ||| e is RegisterFsDevice
    ||| e is RegisterConsoleDevice
    ||| e is RegisterGpuDevice
    ||| e is RegisterInputDevice
    ||| e is RegisterNetDevice
    ||| e is RegisterRngDevice
    ||| e is RegisterSndDevice
    ||| e is RegisterVsockDevice
    ||| e is RestoreState
    ||| e is SecureVirtAttest
    ||| e is SecureVirtPrepare
    ||| e is ShmHostAddr
}

/// The whole message, given the `Display` and `Debug` texts of the I/O
/// error the error carries, directly or inside a device or VM error.
pub open spec fn start_error_full(e: &StartMicrovmError, io_text: Seq<char>, io_debug_text: Seq<char>) -> Seq<char> {
    match e {
        StartMicrovmError::AttachBlockDevice(_) => start_error_prefix(e) + io_text,
        StartMicrovmError::CreateRateLimiter(_) => start_error_prefix(e) + io_text,
        StartMicrovmError::ElfOpenKernel(_) => start_error_prefix(e) + io_text,
        StartMicrovmError::FirmwareRead(_) => start_error_prefix(e) + io_text,
        StartMicrovmError::SnapshotMemFile(_) => start_error_prefix(e) + io_text,
        StartMicrovmError::ImageBz2Decoder(_) => start_error_prefix(e) + io_text,
        StartMicrovmError::ImageBz2OpenKernel(_) => start_error_prefix(e) + io_text,
        StartMicrovmError::ImageGzDecoder(_) => start_error_prefix(e) + io_text,
        StartMicrovmError::ImageGzOpenKernel(_) => start_error_prefix(e) + io_text,
        StartMicrovmError::ImageZstdDecoder(_) => start_error_prefix(e) + io_text,
        StartMicrovmError::ImageZstdOpenKernel(_) => start_error_prefix(e) + io_text,
        StartMicrovmError::InitrdRead(_) => start_error_prefix(e) + io_text,
        StartMicrovmError::PeGzDecoder(_) => start_error_prefix(e) + io_text,
        StartMicrovmError::PeGzOpenKernel(_) => start_error_prefix(e) + io_text,
        StartMicrovmError::RawOpenKernel(_) => start_error_prefix(e) + io_text,
        StartMicrovmError::InvalidKernelBundle(_) => start_error_prefix(e) + without_quotes(io_text),
        StartMicrovmError::OpenBlockDevice(_) => start_error_prefix(e) + without_quotes(io_debug_text),
        StartMicrovmError::OpenConsoleFile(_) => start_error_prefix(e) + without_quotes(io_debug_text),
        StartMicrovmError::RegisterBalloonDevice(m) => start_error_prefix(e) + without_quotes(mmio_error_full(m, io_text)),
        StartMicrovmError::RegisterBlockDevice(m) => start_error_prefix(e) + without_quotes(mmio_error_full(m, io_text)),
        StartMicrovmError::RegisterFsDevice(m) => start_error_prefix(e) + without_quotes(mmio_error_full(m, io_text)),
        StartMicrovmError::RegisterConsoleDevice(m) => start_error_prefix(e) + without_quotes(mmio_error_full(m, io_text)),
        StartMicrovmError::RegisterGpuDevice(m) => start_error_prefix(e) + without_quotes(mmio_error_full(m, io_text)),
        StartMicrovmError::RegisterInputDevice(m) => start_error_prefix(e) + without_quotes(mmio_error_full(m, io_text)),
        StartMicrovmError::RegisterNetDevice(m) => start_error_prefix(e) + without_quotes(mmio_error_full(m, io_text)),
        StartMicrovmError::RegisterRngDevice(m) => start_error_prefix(e) + without_quotes(mmio_error_full(m, io_text)),
        StartMicrovmError::RegisterSndDevice(m) => start_error_prefix(e) + without_quotes(mmio_error_full(m, io_text)),
        StartMicrovmError::RegisterVsockDevice(m) => start_error_prefix(e) + without_quotes(mmio_error_full(m, io_text)),
        StartMicrovmError::RestoreState(v) => start_error_prefix(e) + without_quotes(vm_error_full(v, io_text)),
        StartMicrovmError::SecureVirtAttest(v) => start_error_prefix(e) + without_quotes(vm_error_full(v, io_text)),
        StartMicrovmError::SecureVirtPrepare(v) => start_error_prefix(e) + without_quotes(vm_error_full(v, io_text)),
        _ => start_error_text(e).unwrap(),
    }
}

impl StartMicrovmError {
    /// The message shown to the user, given the `Display` and `Debug` texts
    /// of the I/O error the error carries, directly or inside a device or VM
    /// error (ignored where it carries none).
    pub fn message_with_io_texts(&self, io_text: &str, io_debug_text: &str) -> (s: String)
        ensures
            s@ == start_error_full(self, io_text@, io_debug_text@),
            starts_with(s@, start_error_prefix(self)),
            start_error_text(self) matches Some(t) ==> s@ == t,
            start_error_strips_quotes(self) ==> quote_free_from(
                s@,
                start_error_prefix(self).len() as int,
            ),
    {
        let s = match self {
            StartMicrovmError::AttachBlockDevice(_) => concat_message("Unable to attach block device to Vmm. Error: ", io_text),
            StartMicrovmError::CreateRateLimiter(_) => concat_message("Cannot create RateLimiter: ", io_text),
            StartMicrovmError::ElfOpenKernel(_) => concat_message("Cannot open the file containing the kernel code: ", io_text),
            StartMicrovmError::ElfLoadKernel(t) => concat_message("Cannot load the kernel into the VM: ", t.as_str()),
            StartMicrovmError::FirmwareInvalidAddress(t) => concat_message("The firmware can't be loaded into the guest memory: ", t.as_str()),
            StartMicrovmError::FirmwareRead(_) => concat_message("Cannot read firmware contents from file: ", io_text),
            StartMicrovmError::GuestMemoryMmap(t) => with_stripped("Invalid Memory Configuration: ", t.as_str()),
            StartMicrovmError::SnapshotMemFile(_) => concat_message("Cannot create snapshot guest-RAM backing file: ", io_text),
            StartMicrovmError::ImageBz2Decoder(_) => concat_message("The BZIP2 decoder couldn't decompress the kernel. ", io_text),
            StartMicrovmError::ImageBz2Invalid => String::from_str("Cannot find compressed kernel in file."),
            StartMicrovmError::ImageBz2LoadKernel(t) => concat_message("Cannot load the kernel from the uncompressed ELF data. ", t.as_str()),
            StartMicrovmError::ImageBz2OpenKernel(_) => concat_message("Cannot open the file containing the kernel code. ", io_text),
            StartMicrovmError::ImageGzDecoder(_) => concat_message("The GZIP decoder couldn't decompress the kernel. ", io_text),
            StartMicrovmError::ImageGzInvalid => String::from_str("Cannot find compressed kernel in file."),
            StartMicrovmError::ImageGzLoadKernel(t) => concat_message("Cannot load the kernel from the uncompressed ELF data. ", t.as_str()),
            StartMicrovmError::ImageGzOpenKernel(_) => concat_message("Cannot open the file containing the kernel code. ", io_text),
            StartMicrovmError::ImageZstdDecoder(_) => concat_message("The ZSTD decoder couldn't decompress the kernel. ", io_text),
            StartMicrovmError::ImageZstdInvalid => String::from_str("Cannot find compressed kernel in file."),
            StartMicrovmError::ImageZstdLoadKernel(t) => concat_message("Cannot load the kernel from the uncompressed ELF data. ", t.as_str()),
            StartMicrovmError::ImageZstdOpenKernel(_) => concat_message("Cannot open the file containing the kernel code. ", io_text),
            StartMicrovmError::InitrdLoad => String::from_str("Cannot load initrd due to an invalid memory configuration."),
            StartMicrovmError::InitrdRead(_) => concat_message("Cannot load initrd due to an invalid image: ", io_text),
            StartMicrovmError::Internal(t) => concat_message("Internal error while starting microVM: ", t.as_str()),
            StartMicrovmError::InvalidKernelBundle(_) => with_stripped("Cannot inject the kernel into the guest memory due to a problem with the bundle. ", io_text),
            StartMicrovmError::KernelCmdline(t) => concat_message("Invalid kernel command line: ", t.as_str()),
            StartMicrovmError::KernelDoesNotFit(load_addr, size) => {
                let mut s = String::from_str("The kernel doesn't fit in the microVM memory (load_addr=");
                let a = format_radix(*load_addr, 10, 0);
                s.append(a.as_str());
                s.append(", size=");
                let z = format_radix(*size as u64, 10, 0);
                s.append(z.as_str());
                s.append(")");
                s
            },
            StartMicrovmError::KernelFormatUnsupported => String::from_str("The supplied kernel format is not supported."),
            StartMicrovmError::LoadCommandline(t) => with_stripped("Cannot load command line string. ", t.as_str()),
            StartMicrovmError::MicroVMAlreadyRunning => String::from_str("Microvm already running."),
            StartMicrovmError::MissingKernelConfig => String::from_str("Cannot start microvm without kernel configuration."),
            StartMicrovmError::MissingMemSizeConfig => String::from_str("Cannot start microvm without guest mem_size config."),
            StartMicrovmError::NetDeviceNotConfigured => String::from_str("The net device configuration is missing the tap device."),
            StartMicrovmError::OpenBlockDevice(_) => with_stripped("Cannot open the block device backing file. ", io_debug_text),
            StartMicrovmError::OpenConsoleFile(_) => with_stripped("Cannot open the console output file. ", io_debug_text),
            StartMicrovmError::PeGzDecoder(_) => concat_message("The GZIP decoder couldn't decompress the kernel. ", io_text),
            StartMicrovmError::PeGzOpenKernel(_) => concat_message("Cannot open the file containing the kernel code. ", io_text),
            StartMicrovmError::PeGzInvalid => String::from_str("Cannot find compressed kernel in file."),
            StartMicrovmError::RawOpenKernel(_) => concat_message("Cannot open the file containing the kernel code: ", io_text),
            StartMicrovmError::RegisterBalloonDevice(err) => {
                let t = err.message_with_io_text(io_text);
                with_stripped("Cannot initialize a MMIO Balloon Device or add a device to the MMIO Bus. ", t.as_str())
            },
            StartMicrovmError::RegisterBlockDevice(err) => {
                let t = err.message_with_io_text(io_text);
                with_stripped("Cannot initialize a MMIO Block Device or add a device to the MMIO Bus. ", t.as_str())
            },
            StartMicrovmError::RegisterEvent(t) => concat_message("Cannot register EventHandler. ", t.as_str()),
            StartMicrovmError::RegisterFsDevice(err) => {
                let t = err.message_with_io_text(io_text);
                with_stripped("Cannot initialize a MMIO Fs Device or add a device to the MMIO Bus. ", t.as_str())
            },
            StartMicrovmError::RegisterConsoleDevice(err) => {
                let t = err.message_with_io_text(io_text);
                with_stripped("Cannot initialize a MMIO Console Device or add a device to the MMIO Bus. ", t.as_str())
            },
            StartMicrovmError::RegisterGpuDevice(err) => {
                let t = err.message_with_io_text(io_text);
                with_stripped("Cannot initialize a MMIO Gpu Device or add a device to the MMIO Bus. ", t.as_str())
            },
            StartMicrovmError::RegisterInputDevice(err) => {
                let t = err.message_with_io_text(io_text);
                with_stripped("Cannot initialize a MMIO Input Device or add a device to the MMIO Bus. ", t.as_str())
            },
            StartMicrovmError::RegisterNetDevice(err) => {
                let t = err.message_with_io_text(io_text);
                with_stripped("Cannot initialize a MMIO Network Device or add a device to the MMIO Bus. ", t.as_str())
            },
            StartMicrovmError::RegisterRngDevice(err) => {
                let t = err.message_with_io_text(io_text);
                with_stripped("Cannot initialize a MMIO Rng Device or add a device to the MMIO Bus. ", t.as_str())
            },
            StartMicrovmError::RegisterSndDevice(err) => {
                let t = err.message_with_io_text(io_text);
                with_stripped("Cannot initialize a MMIO Snd Device or add a device to the MMIO Bus. ", t.as_str())
            },
            StartMicrovmError::RegisterVsockDevice(err) => {
                let t = err.message_with_io_text(io_text);
                with_stripped("Cannot initialize a MMIO Vsock Device or add a device to the MMIO Bus. ", t.as_str())
            },
            StartMicrovmError::RestoreState(err) => {
                let t = err.message_with_io_text(io_text);
                with_stripped("Cannot restore VM/vCPU state from snapshot. ", t.as_str())
            },
            StartMicrovmError::SecureVirtAttest(err) => {
                let t = err.message_with_io_text(io_text);
                with_stripped("Cannot attest the VM in the Secure Virtualization context. ", t.as_str())
            },
            StartMicrovmError::SecureVirtPrepare(err) => {
                let t = err.message_with_io_text(io_text);
                with_stripped("Cannot initialize the Secure Virtualization backend. ", t.as_str())
            },
            StartMicrovmError::ShmConfig(err) => concat_message("Error while configuring an SHM region. ", shm_error_name_text(*err)),
            StartMicrovmError::ShmCreate(err) => concat_message("Error while creating an SHM region. ", shm_error_name_text(*err)),
            StartMicrovmError::ShmHostAddr(t) => with_stripped("Error obtaining the host address of an SHM region. ", t.as_str()),
            StartMicrovmError::InvalidTee => String::from_str("TEE selected is not currently supported"),
        };
        assert(s@.subrange(0, start_error_prefix(self).len() as int) =~= start_error_prefix(self));
        s
    }

    /// The `Display` and `Debug` texts of the I/O error the error carries,
    /// if any.
    fn io_error_texts(&self) -> (String, String) {
        match self {
            StartMicrovmError::AttachBlockDevice(e) => (io_error_text(e), io_error_debug_text(e)),
            StartMicrovmError::CreateRateLimiter(e) => (io_error_text(e), io_error_debug_text(e)),
            StartMicrovmError::ElfOpenKernel(e) => (io_error_text(e), io_error_debug_text(e)),
            StartMicrovmError::FirmwareRead(e) => (io_error_text(e), io_error_debug_text(e)),
            StartMicrovmError::SnapshotMemFile(e) => (io_error_text(e), io_error_debug_text(e)),
            StartMicrovmError::ImageBz2Decoder(e) => (io_error_text(e), io_error_debug_text(e)),
            StartMicrovmError::ImageBz2OpenKernel(e) => (io_error_text(e), io_error_debug_text(e)),
            StartMicrovmError::ImageGzDecoder(e) => (io_error_text(e), io_error_debug_text(e)),
            StartMicrovmError::ImageGzOpenKernel(e) => (io_error_text(e), io_error_debug_text(e)),
            StartMicrovmError::ImageZstdDecoder(e) => (io_error_text(e), io_error_debug_text(e)),
            StartMicrovmError::ImageZstdOpenKernel(e) => (io_error_text(e), io_error_debug_text(e)),
            StartMicrovmError::InitrdRead(e) => (io_error_text(e), io_error_debug_text(e)),
            StartMicrovmError::PeGzDecoder(e) => (io_error_text(e), io_error_debug_text(e)),
            StartMicrovmError::PeGzOpenKernel(e) => (io_error_text(e), io_error_debug_text(e)),
            StartMicrovmError::RawOpenKernel(e) => (io_error_text(e), io_error_debug_text(e)),
            StartMicrovmError::InvalidKernelBundle(e) => (io_error_text(e), io_error_debug_text(e)),
            StartMicrovmError::OpenBlockDevice(e) => (io_error_text(e), io_error_debug_text(e)),
            StartMicrovmError::OpenConsoleFile(e) => (io_error_text(e), io_error_debug_text(e)),
            StartMicrovmError::RegisterBalloonDevice(MmioError::EventFd(e)) => (io_error_text(e), io_error_debug_text(e)),
            StartMicrovmError::RegisterBlockDevice(MmioError::EventFd(e)) => (io_error_text(e), io_error_debug_text(e)),
            StartMicrovmError::RegisterFsDevice(MmioError::EventFd(e)) => (io_error_text(e), io_error_debug_text(e)),
            StartMicrovmError::RegisterConsoleDevice(MmioError::EventFd(e)) => (io_error_text(e), io_error_debug_text(e)),
            StartMicrovmError::RegisterGpuDevice(MmioError::EventFd(e)) => (io_error_text(e), io_error_debug_text(e)),
            StartMicrovmError::RegisterInputDevice(MmioError::EventFd(e)) => (io_error_text(e), io_error_debug_text(e)),
            StartMicrovmError::RegisterNetDevice(MmioError::EventFd(e)) => (io_error_text(e), io_error_debug_text(e)),
            StartMicrovmError::RegisterRngDevice(MmioError::EventFd(e)) => (io_error_text(e), io_error_debug_text(e)),
            StartMicrovmError::RegisterSndDevice(MmioError::EventFd(e)) => (io_error_text(e), io_error_debug_text(e)),
            StartMicrovmError::RegisterVsockDevice(MmioError::EventFd(e)) => (io_error_text(e), io_error_debug_text(e)),
            StartMicrovmError::RestoreState(VmError::VcpuSpawn(e)) => (io_error_text(e), io_error_debug_text(e)),
            StartMicrovmError::SecureVirtAttest(VmError::VcpuSpawn(e)) => (io_error_text(e), io_error_debug_text(e)),
            StartMicrovmError::SecureVirtPrepare(VmError::VcpuSpawn(e)) => (io_error_text(e), io_error_debug_text(e)),
            _ => (String::new(), String::new()),
        }
    }

    /// The message shown to the user.
    pub fn message(&self) -> (s: String)
        ensures
            starts_with(s@, start_error_prefix(self)),
            start_error_text(self) matches Some(t) ==> s@ == t,
            start_error_strips_quotes(self) ==> quote_free_from(
                s@,
                start_error_prefix(self).len() as int,
            ),
    {
        let (t, d) = self.io_error_texts();
        self.message_with_io_texts(t.as_str(), d.as_str())
    }
}

} // verus!
