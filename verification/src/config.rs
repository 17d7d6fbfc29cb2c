//! Configuration records of a micro-VM (kernel, firmware, filesystem and
//! block devices, kernel command line) and the errors raised while applying
//! them, each with its user-facing message.

use vstd::prelude::*;
use vstd::string::*;
use std::path::PathBuf;
use std::io::Error as IoError;

verus! {

#[verifier::external_type_specification]
#[verifier::external_body]
pub struct ExPathBuf(std::path::PathBuf);

#[verifier::external_type_specification]
#[verifier::external_body]
pub struct ExIoError(std::io::Error);

/// `Clone` of a host path; the copy names the same path, which the
/// contract leaves unsaid since the path is opaque here.
pub assume_specification[ <std::path::PathBuf as std::clone::Clone>::clone ](p: &PathBuf) -> (r: PathBuf);

/// `Display` text of an I/O error.
#[verifier::external_body]
pub(crate) fn io_error_text(e: &IoError) -> String {
    format!("{e}")
}

/// `Debug` text of an I/O error.
#[verifier::external_body]
pub(crate) fn io_error_debug_text(e: &IoError) -> String {
    format!("{e:?}")
}

/// `prefix` followed by `tail`.
pub(crate) fn concat_message(prefix: &str, tail: &str) -> (s: String)
    ensures
        s@ == prefix@ + tail@,
{
    let mut s = String::from_str(prefix);
    s.append(tail);
    s
}

/// Layout of an external kernel image.
#[derive(Clone, Copy, Debug, Default, PartialEq, Eq, Structural)]
pub enum KernelFormat {
    /// Raw image, ready to be loaded into the VM.
    #[default]
    Raw,
    /// ELF image whose loadable segments are placed in guest memory.
    Elf,
    /// Raw image compressed with GZIP, embedded into a PE file.
    PeGz,
    /// ELF image compressed with BZIP2, embedded into an Image file.
    ImageBz2,
    /// ELF image compressed with GZIP, embedded into an Image file.
    ImageGz,
    /// ELF image compressed with ZSTD, embedded into an Image file.
    ImageZstd,
}

/// A kernel loaded from a file on the host.
#[derive(Clone, Debug, Default)]
pub struct ExternalKernel {
    pub path: PathBuf,
    pub format: KernelFormat,
    pub initramfs_path: Option<PathBuf>,
    pub initramfs_size: u64,
    pub cmdline: Option<String>,
}

/// Firmware image to boot instead of a kernel.
#[derive(Clone, Debug, Default)]
pub struct FirmwareConfig {
    pub path: PathBuf,
}

/// A virtio-fs device sharing a host directory.
#[derive(Clone, Debug, PartialEq, Eq)]
pub struct FsDeviceConfig {
    pub fs_id: String,
    pub shared_dir: String,
    pub shm_size: Option<usize>,
    pub no_fsync: bool,
}

/// General information about the micro-VM.
#[derive(Clone, Debug)]
pub struct InstanceInfo {
    /// The ID of the micro-VM.
    pub id: String,
    /// Whether the micro-VM has been started.
    pub started: bool,
    /// The version of the VMM that runs the micro-VM.
    pub vmm_version: String,
    /// The name of the application that runs the micro-VM.
    pub app_name: String,
}

/// A kernel already mapped into the host process by the firmware library.
#[derive(Clone, Copy, Debug, Default, PartialEq, Eq, Structural)]
pub struct KernelBundle {
    pub host_addr: u64,
    pub guest_addr: u64,
    pub entry_addr: u64,
    pub size: usize,
}

#[derive(Clone, Copy, Debug, PartialEq, Eq, Structural)]
pub enum KernelBundleError {
    /// Guest address is not page-aligned.
    InvalidGuestAddress,
    /// Host address is zero or not page-aligned.
    InvalidHostAddress,
    /// Kernel size is zero or not a multiple of the page size.
    InvalidSize,
}

pub open spec fn kernel_bundle_error_text(e: KernelBundleError) -> Seq<char> {
    match e {
        KernelBundleError::InvalidGuestAddress => "Guest address is not page-aligned"@,
        KernelBundleError::InvalidHostAddress => "Host address is zero or not page-aligned"@,
        KernelBundleError::InvalidSize => "Kernel size is zero or not a multiple of the page size"@,
    }
}

impl KernelBundleError {
    /// The message shown to the user.
    pub fn message(&self) -> (s: String)
        ensures
            s@ == kernel_bundle_error_text(*self),
    {
        match self {
            KernelBundleError::InvalidGuestAddress => String::from_str(
                "Guest address is not page-aligned",
            ),
            KernelBundleError::InvalidHostAddress => String::from_str(
                "Host address is zero or not page-aligned",
            ),
            KernelBundleError::InvalidSize => String::from_str(
                "Kernel size is zero or not a multiple of the page size",
            ),
        }
    }
}

/// The qboot firmware already mapped into the host process.
#[derive(Clone, Copy, Debug, Default, PartialEq, Eq, Structural)]
pub struct QbootBundle {
    pub host_addr: u64,
    pub size: usize,
}

#[derive(Clone, Copy, Debug, PartialEq, Eq, Structural)]
pub enum QbootBundleError {
    /// The qboot binary is not 64K long.
    InvalidSize,
}

impl QbootBundleError {
    /// The message shown to the user.
    pub fn message(&self) -> (s: String)
        ensures
            s@ == "qboot binary is not 64K long."@,
    {
        String::from_str("qboot binary is not 64K long.")
    }
}

/// An initrd already mapped into the host process.
#[derive(Clone, Copy, Debug, Default, PartialEq, Eq, Structural)]
pub struct InitrdBundle {
    pub host_addr: u64,
    pub size: usize,
}

/// Kernel command line of a Windows host's guest: serial console, virtio-fs
/// root, no PS/2 auxiliary probing.
pub const DEFAULT_KERNEL_CMDLINE: &'static str = "reboot=k panic=-1 panic_print=0 nomodule console=ttyS0,115200 earlyprintk=serial,ttyS0,115200 rootfstype=virtiofs rw no-kvmapf lpj=1000000 tsc=reliable i8042.noaux i8042.nomux i8042.nopnp";

/// Pieces the kernel command line is assembled from.
#[derive(Clone, Debug, Default, PartialEq, Eq)]
pub struct KernelCmdlineConfig {
    pub prolog: Option<String>,
    pub krun_env: Option<String>,
    pub epilog: Option<String>,
}

#[derive(Clone, Debug, PartialEq, Eq)]
pub enum KernelCmdlineConfigError {
    /// The kernel command line is invalid.
    InvalidKernelCommandLine(String),
}

impl KernelCmdlineConfigError {
    /// The message shown to the user.
    pub fn message(&self) -> (s: String)
        ensures
            match self {
                KernelCmdlineConfigError::InvalidKernelCommandLine(e) => s@
                    == "The kernel command line is invalid: "@ + e@,
            },
    {
        match self {
            KernelCmdlineConfigError::InvalidKernelCommandLine(e) => concat_message(
                "The kernel command line is invalid: ",
                e.as_str(),
            ),
        }
    }
}

#[derive(Debug)]
pub enum BlockConfigError {
    /// Failed to create the block device.
    CreateBlockDevice(IoError),
}

impl BlockConfigError {
    /// The message shown to the user, given the I/O error as `Debug` prints
    /// it.
    pub fn message_with_io_text(&self, io_debug_text: &str) -> (s: String)
        ensures
            s@ == "Cannot create block device: "@ + io_debug_text@,
    {
        concat_message("Cannot create block device: ", io_debug_text)
    }

    /// The message shown to the user: a fixed prefix, then the I/O error as
    /// `Debug` prints it.
    pub fn message(&self) -> (s: String)
        ensures
            s@.len() >= "Cannot create block device: "@.len(),
            s@.subrange(0, "Cannot create block device: "@.len() as int)
                == "Cannot create block device: "@,
    {
        match self {
            BlockConfigError::CreateBlockDevice(e) => {
                let t = io_error_debug_text(e);
                let s = self.message_with_io_text(t.as_str());
                assert(s@.subrange(0, "Cannot create block device: "@.len() as int)
                    =~= "Cannot create block device: "@);
                s
            },
        }
    }
}

/// Which block device holds the guest's root filesystem, and how to mount it.
#[derive(Clone, Debug, PartialEq, Eq)]
pub struct BlockRootConfig {
    pub device: String,
    pub fstype: Option<String>,
    pub options: Option<String>,
}

impl Default for BlockRootConfig {
    /// No root device, filesystem type or mount options.
    fn default() -> (c: Self)
        ensures
            c.device@ == Seq::<char>::empty(),
            c.fstype.is_none(),
            c.options.is_none(),
    {
        BlockRootConfig { device: String::new(), fstype: None, options: None }
    }
}

/// A virtio-blk device backed by a raw disk image on a Windows host.
#[derive(Clone, Debug, PartialEq, Eq)]
pub struct BlockWindowsConfig {
    /// Unique ID used to register the device with the MMIO manager.
    pub block_id: String,
    /// Path to the raw disk image on the host.
    pub disk_image_path: String,
    /// Whether the device is read-only.
    pub is_disk_read_only: bool,
}

#[derive(Debug)]
pub enum BlockWindowsError {
    /// Failed to open the disk image.
    OpenDisk(IoError),
}

impl BlockWindowsError {
    /// The message shown to the user, given the I/O error's text.
    pub fn message_with_io_text(&self, io_text: &str) -> (s: String)
        ensures
            s@ == "BlockWindows disk open failed: "@ + io_text@,
    {
        concat_message("BlockWindows disk open failed: ", io_text)
    }

    /// The message shown to the user: a fixed prefix, then the I/O error.
    pub fn message(&self) -> (s: String)
        ensures
            s@.len() >= "BlockWindows disk open failed: "@.len(),
            s@.subrange(0, "BlockWindows disk open failed: "@.len() as int)
                == "BlockWindows disk open failed: "@,
    {
        match self {
            BlockWindowsError::OpenDisk(e) => {
                let t = io_error_text(e);
                let s = self.message_with_io_text(t.as_str());
                assert(s@.subrange(0, "BlockWindows disk open failed: "@.len() as int)
                    =~= "BlockWindows disk open failed: "@);
                s
            },
        }
    }
}

#[derive(Debug)]
pub enum NetWindowsError {
    /// Failed to connect the TCP backend.
    ConnectBackend(IoError),
    /// Failed to create the net device.
    CreateDevice(IoError),
}

pub open spec fn net_windows_error_prefix(e: &NetWindowsError) -> Seq<char> {
    match e {
        NetWindowsError::ConnectBackend(_) => "TCP backend connect failed: "@,
        NetWindowsError::CreateDevice(_) => "NetWindows device creation failed: "@,
    }
}

impl NetWindowsError {
    /// The message shown to the user, given the I/O error's text.
    pub fn message_with_io_text(&self, io_text: &str) -> (s: String)
        ensures
            s@ == net_windows_error_prefix(self) + io_text@,
    {
        match self {
            NetWindowsError::ConnectBackend(_) => concat_message("TCP backend connect failed: ", io_text),
            NetWindowsError::CreateDevice(_) => concat_message(
                "NetWindows device creation failed: ",
                io_text,
            ),
        }
    }

    /// The message shown to the user: a prefix naming the failed step, then
    /// the I/O error.
    pub fn message(&self) -> (s: String)
        ensures
            s@.len() >= net_windows_error_prefix(self).len(),
            s@.subrange(0, net_windows_error_prefix(self).len() as int)
                == net_windows_error_prefix(self),
    {
        let t = match self {
            NetWindowsError::ConnectBackend(e) => io_error_text(e),
            NetWindowsError::CreateDevice(e) => io_error_text(e),
        };
        let s = self.message_with_io_text(t.as_str());
        assert(s@.subrange(0, net_windows_error_prefix(self).len() as int)
            =~= net_windows_error_prefix(self));
        s
    }
}

} // verus!
