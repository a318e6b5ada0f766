//! The replacement audio libraries and the architectures that they come
//! for.

use vstd::prelude::*;

verus! {

/// File name of the DirectSound replacement.
pub const DSOUND_DLL_NAME: &'static str = "dsound.dll";

/// File name of the Core Audio device API replacement.
pub const MMDEVAPI_DLL_NAME: &'static str = "MMDevAPI.dll";

/// File name of the time-stretching library that both replacements load.
pub const SOUNDTOUCH_DLL_NAME: &'static str = "SoundTouch.dll";

/// The audio libraries that can be replaced in a game's directory.
#[derive(Clone, Copy, Debug, PartialEq, Eq, Structural)]
pub enum SupportedDLLs {
    DSound,
    MMDevAPI,
}

/// Every replaceable library, in the order in which they are unpacked.
pub open spec fn all_dlls() -> Seq<SupportedDLLs> {
    seq![SupportedDLLs::DSound, SupportedDLLs::MMDevAPI]
}

impl SupportedDLLs {
    /// The libraries to unpack: the one selected, or all of them.
    pub fn selection(selected: Option<SupportedDLLs>) -> (r: Vec<SupportedDLLs>)
        ensures
            r@ == (match selected {
                Some(dll) => seq![dll],
                None => all_dlls(),
            }),
    {
        match selected {
            Some(dll) => {
                let r = vec![dll];
                assert(r@ =~= seq![dll]);
                r
            },
            None => {
                let r = vec![SupportedDLLs::DSound, SupportedDLLs::MMDevAPI];
                assert(r@ =~= all_dlls());
                r
            },
        }
    }

    /// Whether the library only takes effect once COM registry entries
    /// point at it.
    pub fn needs_registry(&self) -> (r: bool)
        ensures
            r == (*self == SupportedDLLs::MMDevAPI),
    {
        match self {
            SupportedDLLs::DSound => false,
            SupportedDLLs::MMDevAPI => true,
        }
    }

    /// The file name under which the library is unpacked.
    pub fn file_name(&self) -> (r: &'static str)
        ensures
            r@ == (match self {
                SupportedDLLs::DSound => "dsound.dll"@,
                SupportedDLLs::MMDevAPI => "MMDevAPI.dll"@,
            }),
    {
        proof {
            reveal_strlit("dsound.dll");
            reveal_strlit("MMDevAPI.dll");
        }
        match self {
            SupportedDLLs::DSound => DSOUND_DLL_NAME,
            SupportedDLLs::MMDevAPI => MMDEVAPI_DLL_NAME,
        }
    }
}

/// The architecture of a game's executable, which decides the build of each
/// library.
#[derive(Clone, Copy, Debug, PartialEq, Eq, Structural)]
pub enum System {
    X64,
    X86,
}

#[verifier::external_type_specification]
#[verifier::external_body]
pub struct ExGoblinError(goblin::error::Error);

/// Whether the bytes parse as a PE image and, if so, whether it is a 64-bit
/// one.
pub uninterp spec fn pe_is_64(bytes: Seq<u8>) -> Option<bool>;

/// Relies on `goblin::pe::PE::parse`: it parses the bytes as a PE image or
/// fails, and its `is_64` flag tells a PE32+ image; both depend on the
/// bytes alone.
#[verifier::external_body]
fn parse_pe_is_64(bytes: &[u8]) -> (r: Result<bool, goblin::error::Error>)
    ensures
        match r {
            Ok(is_64) => pe_is_64(bytes@) == Some(is_64),
            Err(_) => pe_is_64(bytes@).is_none(),
        },
{
    goblin::pe::PE::parse(bytes).map(|pe| pe.is_64)
}

/// Why an executable's architecture could not be told.
#[derive(Clone, Copy, Debug, PartialEq, Eq, Structural)]
pub enum DetectError {
    /// The bytes are no PE image.
    NotAnExecutable,
}

impl System {
    /// The architecture named by a PE image's 64-bit flag.
    pub fn from_is_64(is_64: bool) -> (r: System)
        ensures
            r == (if is_64 {
                System::X64
            } else {
                System::X86
            }),
    {
        if is_64 {
            System::X64
        } else {
            System::X86
        }
    }

    /// The architecture of the executable whose bytes are given.
    pub fn detect(bytes: &[u8]) -> (r: Result<System, DetectError>)
        ensures
            r == (match pe_is_64(bytes@) {
                Some(is_64) => Ok::<System, DetectError>(
                    if is_64 {
                        System::X64
                    } else {
                        System::X86
                    },
                ),
                None => Err(DetectError::NotAnExecutable),
            }),
    {
        match parse_pe_is_64(bytes) {
            Ok(is_64) => Ok(System::from_is_64(is_64)),
            Err(_) => Err(DetectError::NotAnExecutable),
        }
    }

    /// The architecture's name as it appears in library file names.
    pub fn name(&self) -> (r: &'static str)
        ensures
            r@ == (match self {
                System::X64 => "x64"@,
                System::X86 => "x86"@,
            }),
    {
        proof {
            reveal_strlit("x64");
            reveal_strlit("x86");
        }
        match self {
            System::X64 => "x64",
            System::X86 => "x86",
        }
    }
}

impl From<bool> for System {
    /// The architecture chosen by the `x86` flag: x86 when set, x64 when
    /// not.
    fn from(x86: bool) -> (r: System)
        ensures
            r == (if x86 {
                System::X86
            } else {
                System::X64
            }),
    {
        if x86 {
            System::X86
        } else {
            System::X64
        }
    }
}

impl vstd::std_specs::convert::FromSpecImpl<bool> for System {
    open spec fn obeys_from_spec() -> bool {
        true
    }

    open spec fn from_spec(x86: bool) -> System {
        if x86 {
            System::X86
        } else {
            System::X64
        }
    }
}

} // verus!
