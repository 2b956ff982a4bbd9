//! Kernel build configuration.
use vstd::prelude::*;
use vstd::string::StrSliceExecFns;

verus! {

/// A failure while configuring or building the kernel.
#[derive(Debug)]
pub enum Error {
    /// More explanation of the error that occurred.
    Message(String),
}

impl Error {
    pub fn new(message: &str) -> (r: Self)
        ensures
            r matches Error::Message(m) && m@ == message@,
    {
        Error::Message(message.to_owned())
    }
}

/// The kernel port directory, relative to the kernel's `portable` directory, for
/// a build target given by its triple, architecture, OS and environment.
pub open spec fn port_for_target(target: Seq<char>, arch: Seq<char>, os: Seq<char>, env: Seq<char>) -> Option<Seq<char>> {
    if arch == "x86_64"@ && os == "windows"@ {
        Some("MSVC-MingW"@)
    } else if arch == "x86_64"@ && os == "linux"@ && env == "gnu"@ {
        Some("ThirdParty/GCC/Posix"@)
    } else if target == "thumbv7m-none-eabi"@ || target == "thumbv7em-none-eabi"@ {
        Some("GCC/ARM_CM3"@)
    } else if target == "thumbv7em-none-eabihf"@ {
        Some("GCC/ARM_CM4F"@)
    } else if target == "thumbv8m.main-none-eabi"@ || target == "thumbv8m.main-none-eabihf"@ {
        Some("GCC/ARM_CM33_NTZ/non_secure"@)
    } else {
        None
    }
}

fn same_text(a: &str, b: &str) -> (r: bool)
    ensures
        r == (a@ == b@),
{
    let n = a.unicode_len();
    if n != b.unicode_len() {
        return false;
    }
    let mut i: usize = 0;
    while i < n
        invariant
            n == a@.len(),
            n == b@.len(),
            i <= n,
            forall|j: int| 0 <= j < i ==> a@[j] == b@[j],
        decreases n - i,
    {
        if a.get_char(i) != b.get_char(i) {
            return false;
        }
        i += 1;
    }
    assert(a@ =~= b@);
    true
}

/// The kernel port directory for a build target; `None` for a target with no
/// known port.
pub fn freertos_port_for_target(target: &str, arch: &str, os: &str, env: &str) -> (r: Option<&'static str>)
    ensures
        r is None <==> port_for_target(target@, arch@, os@, env@) is None,
        r matches Some(p) ==> port_for_target(target@, arch@, os@, env@) == Some(p@),
{
    let x86_64 = same_text(arch, "x86_64");
    if x86_64 && same_text(os, "windows") {
        Some("MSVC-MingW")
    } else if x86_64 && same_text(os, "linux") && same_text(env, "gnu") {
        Some("ThirdParty/GCC/Posix")
    } else if same_text(target, "thumbv7m-none-eabi") || same_text(target, "thumbv7em-none-eabi") {
        Some("GCC/ARM_CM3")
    } else if same_text(target, "thumbv7em-none-eabihf") {
        Some("GCC/ARM_CM4F")
    } else if same_text(target, "thumbv8m.main-none-eabi") || same_text(target, "thumbv8m.main-none-eabihf") {
        Some("GCC/ARM_CM33_NTZ/non_secure")
    } else {
        None
    }
}

/// The value of an interrupt priority register for `priority` on a core that
/// implements the top `bits` bits of the 8-bit priority field.
pub fn priority_register_value(priority: u32, bits: u8) -> (r: u32)
    requires
        bits <= 8,
    ensures
        r == priority << ((8 - bits) as u32),
{
    priority << ((8 - bits) as u32)
}

/// The value of a boolean kernel setting.
pub fn flag_value(v: bool) -> (r: u32)
    ensures
        v ==> r == 1,
        !v ==> r == 0,
{
    if v {
        1
    } else {
        0
    }
}

} // verus!
