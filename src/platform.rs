use vstd::prelude::*;

verus! {

/// The host operating systems that the provisioning run knows how to handle.
#[derive(Clone, Copy, Debug, PartialEq, Eq, Structural)]
pub enum Platform {
    Linux,
    Macos,
    Unsupported,
}

/// Why a provisioning run cannot go on.
#[derive(Clone, Copy, Debug, PartialEq, Eq, Structural)]
pub enum ProvisionError {
    /// The host is neither Linux nor macOS.
    UnsupportedPlatform,
}

impl ProvisionError {
    /// The diagnostic printed on standard error before the run stops.
    pub fn message(&self) -> (r: String)
        ensures
            r@ == "Unsupported OS!!!"@,
    {
        String::from_str("Unsupported OS!!!")
    }

    /// The process exit status that ends the run.
    pub fn exit_code(&self) -> (r: i32)
        ensures
            r == 1,
    {
        1
    }
}

/// The platform that an operating-system name stands for.
pub open spec fn platform_of(os: Seq<char>) -> Platform {
    if os == "linux"@ {
        Platform::Linux
    } else if os == "macos"@ {
        Platform::Macos
    } else {
        Platform::Unsupported
    }
}

/// Classifies the operating-system name reported by the host.
pub fn detect_platform(os: &str) -> (r: Platform)
    ensures
        r == platform_of(os@),
{
    let s = String::from_str(os);
    if s == String::from_str("linux") {
        Platform::Linux
    } else if s == String::from_str("macos") {
        Platform::Macos
    } else {
        Platform::Unsupported
    }
}

/// Decides, before any step, whether the run can go on on this host.
pub fn start(os: &str) -> (r: Result<Platform, ProvisionError>)
    ensures
        r is Err <==> platform_of(os@) == Platform::Unsupported,
        r matches Ok(p) ==> p == platform_of(os@),
        r matches Err(e) ==> e == ProvisionError::UnsupportedPlatform,
{
    match detect_platform(os) {
        Platform::Unsupported => Err(ProvisionError::UnsupportedPlatform),
        p => Ok(p),
    }
}

} // verus!
