//! The COM registry entries that make a game load the Core Audio device API
//! replacement from its own directory, and which of them an operation
//! touches.

use crate::utils::SupportedDLLs;
use vstd::prelude::*;

verus! {

/// What to do with the registry entries.
#[derive(Clone, Copy, Debug, PartialEq, Eq, Structural)]
pub enum RegistryOperation {
    Add,
    Delete,
}

/// The COM classes of the audio device API whose in-process server is
/// redirected, by class identifier.
#[derive(Clone, Copy, Debug, PartialEq, Eq, Structural)]
pub enum ComClass {
    Class06CCA63E,
    Class93C063B0,
    ClassBCDE0395,
    ClassE2F7A62A,
}

/// The classes in the order in which their entries are written.
pub open spec fn class_at(i: int) -> ComClass {
    if i == 0 {
        ComClass::Class06CCA63E
    } else if i == 1 {
        ComClass::Class93C063B0
    } else if i == 2 {
        ComClass::ClassBCDE0395
    } else {
        ComClass::ClassE2F7A62A
    }
}

/// The class identifier, without braces.
pub open spec fn clsid_of(class: ComClass) -> Seq<char> {
    match class {
        ComClass::Class06CCA63E => "06CCA63E-9941-441B-B004-39F999ADA412"@,
        ComClass::Class93C063B0 => "93C063B0-68CB-4DE7-B032-8F56C1D2E99D"@,
        ComClass::ClassBCDE0395 => "BCDE0395-E52F-467C-8E3D-C4579291692E"@,
        ComClass::ClassE2F7A62A => "E2F7A62A-862B-40AE-BBC2-5C0CA9A5B7E1"@,
    }
}

/// The threading model that the class's server declares.
pub open spec fn threading_model_of(class: ComClass) -> Seq<char> {
    match class {
        ComClass::ClassE2F7A62A => "free"@,
        _ => "both"@,
    }
}

/// The registry path of a class's in-process server under the current
/// user, in the native or the 32-bit view.
pub open spec fn key_path_of(class: ComClass, wow64: bool) -> Seq<char> {
    (if wow64 {
        "SOFTWARE\\Classes\\WOW6432Node\\CLSID\\{"@
    } else {
        "SOFTWARE\\Classes\\CLSID\\{"@
    }) + clsid_of(class) + "}\\InprocServer32"@
}

/// One registry key under the current user: a class's in-process server
/// entry, whose default value is the library's file name and whose
/// `ThreadingModel` value is the class's threading model.
#[derive(Clone, Copy, Debug, PartialEq, Eq, Structural)]
pub struct RegistryKey {
    pub class: ComClass,
    pub wow64: bool,
}

impl ComClass {
    /// The class identifier, without braces.
    pub fn clsid(&self) -> (r: &'static str)
        ensures
            r@ == clsid_of(*self),
    {
        proof {
            reveal_strlit("06CCA63E-9941-441B-B004-39F999ADA412");
            reveal_strlit("93C063B0-68CB-4DE7-B032-8F56C1D2E99D");
            reveal_strlit("BCDE0395-E52F-467C-8E3D-C4579291692E");
            reveal_strlit("E2F7A62A-862B-40AE-BBC2-5C0CA9A5B7E1");
        }
        match self {
            ComClass::Class06CCA63E => "06CCA63E-9941-441B-B004-39F999ADA412",
            ComClass::Class93C063B0 => "93C063B0-68CB-4DE7-B032-8F56C1D2E99D",
            ComClass::ClassBCDE0395 => "BCDE0395-E52F-467C-8E3D-C4579291692E",
            ComClass::ClassE2F7A62A => "E2F7A62A-862B-40AE-BBC2-5C0CA9A5B7E1",
        }
    }

    /// The threading model that the class's server declares.
    pub fn threading_model(&self) -> (r: &'static str)
        ensures
            r@ == threading_model_of(*self),
    {
        proof {
            reveal_strlit("free");
            reveal_strlit("both");
        }
        match self {
            ComClass::ClassE2F7A62A => "free",
            _ => "both",
        }
    }
}

impl RegistryKey {
    /// The key's path under the current user.
    pub fn path(&self) -> (r: &'static str)
        ensures
            r@ == key_path_of(self.class, self.wow64),
    {
        proof {
            reveal_strlit("SOFTWARE\\Classes\\CLSID\\{");
            reveal_strlit("SOFTWARE\\Classes\\WOW6432Node\\CLSID\\{");
            reveal_strlit("}\\InprocServer32");
            reveal_strlit("06CCA63E-9941-441B-B004-39F999ADA412");
            reveal_strlit("93C063B0-68CB-4DE7-B032-8F56C1D2E99D");
            reveal_strlit("BCDE0395-E52F-467C-8E3D-C4579291692E");
            reveal_strlit("E2F7A62A-862B-40AE-BBC2-5C0CA9A5B7E1");
            reveal_strlit(
                "SOFTWARE\\Classes\\CLSID\\{06CCA63E-9941-441B-B004-39F999ADA412}\\InprocServer32",
            );
            reveal_strlit(
                "SOFTWARE\\Classes\\CLSID\\{93C063B0-68CB-4DE7-B032-8F56C1D2E99D}\\InprocServer32",
            );
            reveal_strlit(
                "SOFTWARE\\Classes\\CLSID\\{BCDE0395-E52F-467C-8E3D-C4579291692E}\\InprocServer32",
            );
            reveal_strlit(
                "SOFTWARE\\Classes\\CLSID\\{E2F7A62A-862B-40AE-BBC2-5C0CA9A5B7E1}\\InprocServer32",
            );
            reveal_strlit(
                "SOFTWARE\\Classes\\WOW6432Node\\CLSID\\{06CCA63E-9941-441B-B004-39F999ADA412}\\InprocServer32",
            );
            reveal_strlit(
                "SOFTWARE\\Classes\\WOW6432Node\\CLSID\\{93C063B0-68CB-4DE7-B032-8F56C1D2E99D}\\InprocServer32",
            );
            reveal_strlit(
                "SOFTWARE\\Classes\\WOW6432Node\\CLSID\\{BCDE0395-E52F-467C-8E3D-C4579291692E}\\InprocServer32",
            );
            reveal_strlit(
                "SOFTWARE\\Classes\\WOW6432Node\\CLSID\\{E2F7A62A-862B-40AE-BBC2-5C0CA9A5B7E1}\\InprocServer32",
            );
        }
        let r = match (self.class, self.wow64) {
            (ComClass::Class06CCA63E, false) =>
                "SOFTWARE\\Classes\\CLSID\\{06CCA63E-9941-441B-B004-39F999ADA412}\\InprocServer32",
            (ComClass::Class93C063B0, false) =>
                "SOFTWARE\\Classes\\CLSID\\{93C063B0-68CB-4DE7-B032-8F56C1D2E99D}\\InprocServer32",
            (ComClass::ClassBCDE0395, false) =>
                "SOFTWARE\\Classes\\CLSID\\{BCDE0395-E52F-467C-8E3D-C4579291692E}\\InprocServer32",
            (ComClass::ClassE2F7A62A, false) =>
                "SOFTWARE\\Classes\\CLSID\\{E2F7A62A-862B-40AE-BBC2-5C0CA9A5B7E1}\\InprocServer32",
            (ComClass::Class06CCA63E, true) =>
                "SOFTWARE\\Classes\\WOW6432Node\\CLSID\\{06CCA63E-9941-441B-B004-39F999ADA412}\\InprocServer32",
            (ComClass::Class93C063B0, true) =>
                "SOFTWARE\\Classes\\WOW6432Node\\CLSID\\{93C063B0-68CB-4DE7-B032-8F56C1D2E99D}\\InprocServer32",
            (ComClass::ClassBCDE0395, true) =>
                "SOFTWARE\\Classes\\WOW6432Node\\CLSID\\{BCDE0395-E52F-467C-8E3D-C4579291692E}\\InprocServer32",
            (ComClass::ClassE2F7A62A, true) =>
                "SOFTWARE\\Classes\\WOW6432Node\\CLSID\\{E2F7A62A-862B-40AE-BBC2-5C0CA9A5B7E1}\\InprocServer32",
        };
        assert(r@ =~= key_path_of(self.class, self.wow64));
        r
    }
}

/// What to do after a registry step: go on with the next one, or stop the
/// operation with the step's failure.
#[derive(Clone, Copy, Debug, PartialEq, Eq, Structural)]
pub enum StepDecision {
    Continue,
    Abort,
}

/// The failure policy of registry steps: a failed addition stops the
/// operation with its error; a failed deletion is reported and the
/// operation goes on, so that a removal is never left half done.
pub fn after_step(operation: &RegistryOperation, failed: bool) -> (r: StepDecision)
    ensures
        r == (if failed && *operation == RegistryOperation::Add {
            StepDecision::Abort
        } else {
            StepDecision::Continue
        }),
{
    match operation {
        RegistryOperation::Add => if failed {
            StepDecision::Abort
        } else {
            StepDecision::Continue
        },
        RegistryOperation::Delete => StepDecision::Continue,
    }
}

/// One registry change: an operation on one key.
#[derive(Clone, Copy, Debug, PartialEq, Eq, Structural)]
pub struct RegistryStep {
    pub operation: RegistryOperation,
    pub key: RegistryKey,
}

/// The keys that the Core Audio device API replacement needs: each class in
/// the native view, then each class in the 32-bit view.
pub open spec fn mmdevapi_key_at(i: int) -> RegistryKey {
    RegistryKey { class: class_at(i % 4), wow64: i >= 4 }
}

/// The registry changes that `operation` makes for the library `which`
/// (all libraries when `None`): one step per key of the Core Audio device
/// API replacement, in order, or none for a library that needs no entries.
pub fn registry_op(operation: &RegistryOperation, which: Option<SupportedDLLs>) -> (r: Vec<
    RegistryStep,
>)
    ensures
        which == Some(SupportedDLLs::DSound) ==> r@.len() == 0,
        which != Some(SupportedDLLs::DSound) ==> r@.len() == 8,
        forall|i: int|
            0 <= i < r@.len() ==> #[trigger] r@[i] == (RegistryStep {
                operation: *operation,
                key: mmdevapi_key_at(i),
            }),
{
    let mut steps: Vec<RegistryStep> = Vec::new();
    if which == Some(SupportedDLLs::DSound) {
        return steps;
    }
    let classes = [
        ComClass::Class06CCA63E,
        ComClass::Class93C063B0,
        ComClass::ClassBCDE0395,
        ComClass::ClassE2F7A62A,
    ];
    let mut i: usize = 0;
    while i < 8
        invariant
            i <= 8,
            steps@.len() == i,
            forall|k: int| 0 <= k < 4 ==> #[trigger] classes@[k] == class_at(k),
            forall|k: int|
                0 <= k < i ==> #[trigger] steps@[k] == (RegistryStep {
                    operation: *operation,
                    key: mmdevapi_key_at(k),
                }),
        decreases 8 - i,
    {
        let key = RegistryKey { class: classes[i % 4], wow64: i >= 4 };
        steps.push(RegistryStep { operation: *operation, key });
        i = i + 1;
    }
    steps
}

} // verus!
