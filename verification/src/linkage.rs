//! How a global value or function takes part in linking.

use llvm_sys::LLVMLinkage;
use vstd::prelude::*;

verus! {

/// How to link a global variable or function of a module.
///
/// A function declaration may only be `External` or `ExternalWeak`.
#[derive(Debug, PartialEq, Eq, Copy, Clone, Structural)]
pub enum Linkage {
    /// Only for global arrays of pointers: when two such globals are linked,
    /// the arrays are appended to one another.
    Appending,
    /// Never emitted into the object file; to the linker it is an external
    /// declaration. The definition is known and may be inlined or dropped.
    AvailableExternally,
    /// Like weak linkage, for C's tentative definitions: merged like weak
    /// symbols, never deleted when unreferenced.
    Common,
    /// The symbol is exported from a DLL.
    DLLExport,
    /// The symbol is reached through a pointer set up by the exporting DLL.
    DLLImport,
    /// Visible outside the module; takes part in linkage and resolves
    /// external references. What a value has when nothing else is set.
    External,
    /// Weak until linked; null rather than undefined when not linked.
    ExternalWeak,
    /// Obsolete in LLVM.
    GhostLinkage,
    /// Like `Private`, but shows as a local symbol in the object file: C's
    /// `static`.
    Internal,
    /// Obsolete in LLVM.
    LinkerPrivate,
    /// Obsolete in LLVM.
    LinkerPrivateWeak,
    /// Merged with other globals of the same name at link time; may be
    /// dropped when unreferenced; the body is not inlined into callers.
    LinkOnceAny,
    /// Obsolete in LLVM.
    LinkOnceODRAutoHide,
    /// As `LinkOnceAny`, where only equivalent globals are ever merged.
    LinkOnceODR,
    /// Reachable only from within the module; shows in no symbol table.
    Private,
    /// Merged like `LinkOnceAny`, but kept when unreferenced.
    WeakAny,
    /// As `WeakAny`, where only equivalent globals are ever merged.
    WeakODR,
}

impl Linkage {
    /// The native linkage that stands for this one.
    pub open spec fn native(self) -> LLVMLinkage {
        match self {
            Linkage::Appending => LLVMLinkage::LLVMAppendingLinkage,
            Linkage::AvailableExternally => LLVMLinkage::LLVMAvailableExternallyLinkage,
            Linkage::Common => LLVMLinkage::LLVMCommonLinkage,
            Linkage::DLLExport => LLVMLinkage::LLVMDLLExportLinkage,
            Linkage::DLLImport => LLVMLinkage::LLVMDLLImportLinkage,
            Linkage::External => LLVMLinkage::LLVMExternalLinkage,
            Linkage::ExternalWeak => LLVMLinkage::LLVMExternalWeakLinkage,
            Linkage::GhostLinkage => LLVMLinkage::LLVMGhostLinkage,
            Linkage::Internal => LLVMLinkage::LLVMInternalLinkage,
            Linkage::LinkerPrivate => LLVMLinkage::LLVMLinkerPrivateLinkage,
            Linkage::LinkerPrivateWeak => LLVMLinkage::LLVMLinkerPrivateWeakLinkage,
            Linkage::LinkOnceAny => LLVMLinkage::LLVMLinkOnceAnyLinkage,
            Linkage::LinkOnceODRAutoHide => LLVMLinkage::LLVMLinkOnceODRAutoHideLinkage,
            Linkage::LinkOnceODR => LLVMLinkage::LLVMLinkOnceODRLinkage,
            Linkage::Private => LLVMLinkage::LLVMPrivateLinkage,
            Linkage::WeakAny => LLVMLinkage::LLVMWeakAnyLinkage,
            Linkage::WeakODR => LLVMLinkage::LLVMWeakODRLinkage,
        }
    }

    /// The linkage that a native linkage stands for.
    pub open spec fn from_native(linkage: LLVMLinkage) -> Linkage {
        match linkage {
            LLVMLinkage::LLVMAppendingLinkage => Linkage::Appending,
            LLVMLinkage::LLVMAvailableExternallyLinkage => Linkage::AvailableExternally,
            LLVMLinkage::LLVMCommonLinkage => Linkage::Common,
            LLVMLinkage::LLVMDLLExportLinkage => Linkage::DLLExport,
            LLVMLinkage::LLVMDLLImportLinkage => Linkage::DLLImport,
            LLVMLinkage::LLVMExternalLinkage => Linkage::External,
            LLVMLinkage::LLVMExternalWeakLinkage => Linkage::ExternalWeak,
            LLVMLinkage::LLVMGhostLinkage => Linkage::GhostLinkage,
            LLVMLinkage::LLVMInternalLinkage => Linkage::Internal,
            LLVMLinkage::LLVMLinkerPrivateLinkage => Linkage::LinkerPrivate,
            LLVMLinkage::LLVMLinkerPrivateWeakLinkage => Linkage::LinkerPrivateWeak,
            LLVMLinkage::LLVMLinkOnceAnyLinkage => Linkage::LinkOnceAny,
            LLVMLinkage::LLVMLinkOnceODRAutoHideLinkage => Linkage::LinkOnceODRAutoHide,
            LLVMLinkage::LLVMLinkOnceODRLinkage => Linkage::LinkOnceODR,
            LLVMLinkage::LLVMPrivateLinkage => Linkage::Private,
            LLVMLinkage::LLVMWeakAnyLinkage => Linkage::WeakAny,
            LLVMLinkage::LLVMWeakODRLinkage => Linkage::WeakODR,
        }
    }

    /// The linkage that the native `linkage` stands for.
    pub fn new(linkage: LLVMLinkage) -> (l: Linkage)
        ensures
            l == Self::from_native(linkage),
            l.native() == linkage,
    {
        match linkage {
            LLVMLinkage::LLVMAppendingLinkage => Linkage::Appending,
            LLVMLinkage::LLVMAvailableExternallyLinkage => Linkage::AvailableExternally,
            LLVMLinkage::LLVMCommonLinkage => Linkage::Common,
            LLVMLinkage::LLVMDLLExportLinkage => Linkage::DLLExport,
            LLVMLinkage::LLVMDLLImportLinkage => Linkage::DLLImport,
            LLVMLinkage::LLVMExternalLinkage => Linkage::External,
            LLVMLinkage::LLVMExternalWeakLinkage => Linkage::ExternalWeak,
            LLVMLinkage::LLVMGhostLinkage => Linkage::GhostLinkage,
            LLVMLinkage::LLVMInternalLinkage => Linkage::Internal,
            LLVMLinkage::LLVMLinkerPrivateLinkage => Linkage::LinkerPrivate,
            LLVMLinkage::LLVMLinkerPrivateWeakLinkage => Linkage::LinkerPrivateWeak,
            LLVMLinkage::LLVMLinkOnceAnyLinkage => Linkage::LinkOnceAny,
            LLVMLinkage::LLVMLinkOnceODRAutoHideLinkage => Linkage::LinkOnceODRAutoHide,
            LLVMLinkage::LLVMLinkOnceODRLinkage => Linkage::LinkOnceODR,
            LLVMLinkage::LLVMPrivateLinkage => Linkage::Private,
            LLVMLinkage::LLVMWeakAnyLinkage => Linkage::WeakAny,
            LLVMLinkage::LLVMWeakODRLinkage => Linkage::WeakODR,
        }
    }

    /// The native form of this linkage.
    pub fn as_llvm_linkage(&self) -> (linkage: LLVMLinkage)
        ensures
            linkage == self.native(),
    {
        match *self {
            Linkage::Appending => LLVMLinkage::LLVMAppendingLinkage,
            Linkage::AvailableExternally => LLVMLinkage::LLVMAvailableExternallyLinkage,
            Linkage::Common => LLVMLinkage::LLVMCommonLinkage,
            Linkage::DLLExport => LLVMLinkage::LLVMDLLExportLinkage,
            Linkage::DLLImport => LLVMLinkage::LLVMDLLImportLinkage,
            Linkage::External => LLVMLinkage::LLVMExternalLinkage,
            Linkage::ExternalWeak => LLVMLinkage::LLVMExternalWeakLinkage,
            Linkage::GhostLinkage => LLVMLinkage::LLVMGhostLinkage,
            Linkage::Internal => LLVMLinkage::LLVMInternalLinkage,
            Linkage::LinkerPrivate => LLVMLinkage::LLVMLinkerPrivateLinkage,
            Linkage::LinkerPrivateWeak => LLVMLinkage::LLVMLinkerPrivateWeakLinkage,
            Linkage::LinkOnceAny => LLVMLinkage::LLVMLinkOnceAnyLinkage,
            Linkage::LinkOnceODRAutoHide => LLVMLinkage::LLVMLinkOnceODRAutoHideLinkage,
            Linkage::LinkOnceODR => LLVMLinkage::LLVMLinkOnceODRLinkage,
            Linkage::Private => LLVMLinkage::LLVMPrivateLinkage,
            Linkage::WeakAny => LLVMLinkage::LLVMWeakAnyLinkage,
            Linkage::WeakODR => LLVMLinkage::LLVMWeakODRLinkage,
        }
    }
}

/// Going to the native form and back gives the linkage that one started
/// from: no linkage is lost on the way to LLVM.
pub proof fn linkage_survives_native_form(linkage: Linkage)
    ensures
        Linkage::from_native(linkage.native()) == linkage,
{
}

/// Going from a native linkage to a linkage and back gives the native
/// linkage that one started from: every native linkage has a linkage.
pub proof fn native_form_survives_linkage(linkage: LLVMLinkage)
    ensures
        Linkage::from_native(linkage).native() == linkage,
{
}

/// No two linkages share a native form.
pub proof fn native_form_is_injective(a: Linkage, b: Linkage)
    requires
        a.native() == b.native(),
    ensures
        a == b,
{
}

} // verus!
