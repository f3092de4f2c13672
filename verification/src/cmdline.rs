//! The kernel command line, built by `linux_loader`'s `Cmdline`, and the
//! contracts under which this library relies on it.

use vstd::prelude::*;
use crate::error::CmdlineFault;

verus! {

/// `linux_loader::cmdline::Cmdline`, the builder of a kernel command line.
/// Nothing inside it is visible here; what it holds goes by the two names
/// below.
#[verifier::external_type_specification]
#[verifier::external_body]
pub struct ExCmdline(linux_loader::cmdline::Cmdline);

/// The text that a command line holds.
pub uninterp spec fn cmdline_text(cmdline: linux_loader::cmdline::Cmdline) -> Seq<char>;

/// The capacity that a command line was made with; it counts the final nul.
pub uninterp spec fn cmdline_capacity(cmdline: linux_loader::cmdline::Cmdline) -> nat;

/// The command line of a boot source that names no boot arguments.
pub const DEFAULT_KERNEL_CMDLINE: &'static str =
    "reboot=k panic=1 pci=off nomodules 8250.nr_uarts=1 i8042.noaux i8042.nomux i8042.nopnp i8042.dumbkbd";

/// Whether a character may stand in a command line: printable ASCII, from the
/// space to the tilde.
pub open spec fn printable(c: char) -> bool {
    0x20 <= c as u32 <= 0x7e
}

/// Why a command line with `text` and `capacity` refuses `slug`, if it does.
pub open spec fn insert_fault(text: Seq<char>, capacity: nat, slug: Seq<char>) -> Option<
    CmdlineFault,
> {
    if exists|i: int| 0 <= i < slug.len() && !printable(#[trigger] slug[i]) {
        Some(CmdlineFault::InvalidAscii)
    } else if text.len() + slug.len() + (if text.len() == 0 {
        0nat
    } else {
        1nat
    }) >= capacity {
        Some(CmdlineFault::TooLarge)
    } else {
        None
    }
}

/// The text of a command line after `slug` went in: a space parts it from
/// what was there.
pub open spec fn joined(text: Seq<char>, slug: Seq<char>) -> Seq<char> {
    if text.len() == 0 {
        slug
    } else {
        text.push(' ') + slug
    }
}

/// `linux_loader::cmdline::Cmdline::new`: an empty command line of the given
/// capacity. The outside function panics on a capacity of zero, which is
/// left out here.
#[verifier::external_body]
pub(crate) fn cmdline_new(capacity: usize) -> (r: linux_loader::cmdline::Cmdline)
    requires
        capacity != 0,
    ensures
        cmdline_text(r) == Seq::<char>::empty(),
        cmdline_capacity(r) == capacity as nat,
{
    linux_loader::cmdline::Cmdline::new(capacity)
}

/// `linux_loader::cmdline::Cmdline::insert_str`: the string is refused where
/// it holds a character that is not printable ASCII, and then where it does
/// not fit together with what is there, a separating space and the final
/// nul; else it is appended. A refused string leaves the text as it was.
#[verifier::external_body]
pub(crate) fn cmdline_insert_str(cmdline: &mut linux_loader::cmdline::Cmdline, slug: &str) -> (r:
    Result<(), CmdlineFault>)
    ensures
        cmdline_capacity(*final(cmdline)) == cmdline_capacity(*old(cmdline)),
        match insert_fault(cmdline_text(*old(cmdline)), cmdline_capacity(*old(cmdline)), slug@) {
            Some(fault) => r == Err::<(), CmdlineFault>(fault) && cmdline_text(*final(cmdline))
                == cmdline_text(*old(cmdline)),
            None => r is Ok && cmdline_text(*final(cmdline)) == joined(
                cmdline_text(*old(cmdline)),
                slug@,
            ),
        },
{
    cmdline.insert_str(slug).map_err(|e| match e {
        linux_loader::cmdline::Error::NullTerminator => CmdlineFault::NullTerminator,
        linux_loader::cmdline::Error::InvalidAscii => CmdlineFault::InvalidAscii,
        linux_loader::cmdline::Error::InvalidDevice(d) => CmdlineFault::InvalidDevice(d),
        linux_loader::cmdline::Error::HasSpace => CmdlineFault::HasSpace,
        linux_loader::cmdline::Error::HasEquals => CmdlineFault::HasEquals,
        linux_loader::cmdline::Error::MissingVal(k) => CmdlineFault::MissingVal(k),
        linux_loader::cmdline::Error::MmioSize => CmdlineFault::MmioSize,
        linux_loader::cmdline::Error::TooLarge => CmdlineFault::TooLarge,
    })
}

/// `Vec::<u8>::from` for a `linux_loader::cmdline::Cmdline`: the bytes of the
/// text, read back as a string.
#[verifier::external_body]
pub(crate) fn cmdline_to_string(cmdline: &linux_loader::cmdline::Cmdline) -> (r: String)
    ensures
        r@ == cmdline_text(*cmdline),
{
    String::from_utf8(Vec::<u8>::from(cmdline.clone())).unwrap_or_default()
}

/// `dbs_boot::layout::CMDLINE_MAX_SIZE`: the room that the boot layout leaves
/// for the kernel command line, which is one of two values, by architecture.
#[verifier::external_body]
pub(crate) fn cmdline_max_size() -> (r: usize)
    ensures
        r == 2048 || r == 0x10000,
{
    dbs_boot::layout::CMDLINE_MAX_SIZE
}

/// An empty command line of the given capacity with `boot_args` in it.
pub fn build_cmdline(capacity: usize, boot_args: &str) -> (r: Result<
    linux_loader::cmdline::Cmdline,
    CmdlineFault,
>)
    requires
        capacity != 0,
    ensures
        match insert_fault(Seq::<char>::empty(), capacity as nat, boot_args@) {
            Some(fault) => r == Err::<linux_loader::cmdline::Cmdline, CmdlineFault>(fault),
            None => r is Ok && cmdline_text(r->Ok_0) == boot_args@ && cmdline_capacity(r->Ok_0)
                == capacity as nat,
        },
{
    let mut cmdline = cmdline_new(capacity);
    match cmdline_insert_str(&mut cmdline, boot_args) {
        Ok(()) => Ok(cmdline),
        Err(fault) => Err(fault),
    }
}

/// The default command line is accepted by an empty command line of every
/// capacity that holds more than a hundred characters.
pub proof fn lemma_default_cmdline_accepted(capacity: nat)
    requires
        capacity > 100,
    ensures
        insert_fault(Seq::<char>::empty(), capacity, DEFAULT_KERNEL_CMDLINE@) is None,
{
    reveal_strlit(
        "reboot=k panic=1 pci=off nomodules 8250.nr_uarts=1 i8042.noaux i8042.nomux i8042.nopnp i8042.dumbkbd",
    );
    let text = DEFAULT_KERNEL_CMDLINE@;
    assert(text.len() == 100);
    assert forall|i: int| 0 <= i < text.len() implies printable(#[trigger] text[i]) by {
    }
}

} // verus!
