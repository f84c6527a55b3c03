//! The mapping between linkages and their native forms, and the other
//! numbers that cross the boundary.

use inkwell_core::linkage::Linkage;
use inkwell_core::support::has_interior_nul;
use inkwell_core::targets::Target;
use inkwell_core::types::{BasicType, FunctionType};
use inkwell_core::values::{FunctionValue, GlobalValue, MetadataValue};
use inkwell_core::{AddressSpace, OptimizationLevel};
use llvm_sys::target_machine::LLVMCodeGenOptLevel;
use llvm_sys::LLVMLinkage;

fn pairs() -> Vec<(Linkage, LLVMLinkage)> {
    vec![
        (Linkage::Appending, LLVMLinkage::LLVMAppendingLinkage),
        (Linkage::AvailableExternally, LLVMLinkage::LLVMAvailableExternallyLinkage),
        (Linkage::Common, LLVMLinkage::LLVMCommonLinkage),
        (Linkage::DLLExport, LLVMLinkage::LLVMDLLExportLinkage),
        (Linkage::DLLImport, LLVMLinkage::LLVMDLLImportLinkage),
        (Linkage::External, LLVMLinkage::LLVMExternalLinkage),
        (Linkage::ExternalWeak, LLVMLinkage::LLVMExternalWeakLinkage),
        (Linkage::GhostLinkage, LLVMLinkage::LLVMGhostLinkage),
        (Linkage::Internal, LLVMLinkage::LLVMInternalLinkage),
        (Linkage::LinkerPrivate, LLVMLinkage::LLVMLinkerPrivateLinkage),
        (Linkage::LinkerPrivateWeak, LLVMLinkage::LLVMLinkerPrivateWeakLinkage),
        (Linkage::LinkOnceAny, LLVMLinkage::LLVMLinkOnceAnyLinkage),
        (Linkage::LinkOnceODRAutoHide, LLVMLinkage::LLVMLinkOnceODRAutoHideLinkage),
        (Linkage::LinkOnceODR, LLVMLinkage::LLVMLinkOnceODRLinkage),
        (Linkage::Private, LLVMLinkage::LLVMPrivateLinkage),
        (Linkage::WeakAny, LLVMLinkage::LLVMWeakAnyLinkage),
        (Linkage::WeakODR, LLVMLinkage::LLVMWeakODRLinkage),
    ]
}

#[test]
fn every_linkage_has_its_own_native_form() {
    let pairs = pairs();
    assert_eq!(pairs.len(), 17);
    for (linkage, native) in &pairs {
        assert_eq!(linkage.as_llvm_linkage(), *native);
    }
    for (i, first) in pairs.iter().enumerate() {
        for second in &pairs[i + 1..] {
            assert_ne!(first.0.as_llvm_linkage(), second.0.as_llvm_linkage());
        }
    }
}

#[test]
fn every_native_linkage_has_its_linkage() {
    for (linkage, native) in pairs() {
        assert_eq!(Linkage::new(native), linkage);
    }
}

#[test]
fn linkage_survives_the_way_to_llvm_and_back() {
    for (linkage, native) in pairs() {
        assert_eq!(Linkage::new(linkage.as_llvm_linkage()), linkage);
        assert_eq!(Linkage::new(native).as_llvm_linkage(), native);
    }
}

#[test]
fn native_forms_carry_llvms_numbers() {
    assert_eq!(Linkage::External.as_llvm_linkage() as u32, 0);
    assert_eq!(Linkage::AvailableExternally.as_llvm_linkage() as u32, 1);
    assert_eq!(Linkage::LinkOnceAny.as_llvm_linkage() as u32, 2);
    assert_eq!(Linkage::LinkOnceODR.as_llvm_linkage() as u32, 3);
    assert_eq!(Linkage::LinkOnceODRAutoHide.as_llvm_linkage() as u32, 4);
    assert_eq!(Linkage::WeakAny.as_llvm_linkage() as u32, 5);
    assert_eq!(Linkage::WeakODR.as_llvm_linkage() as u32, 6);
    assert_eq!(Linkage::Appending.as_llvm_linkage() as u32, 7);
    assert_eq!(Linkage::Internal.as_llvm_linkage() as u32, 8);
    assert_eq!(Linkage::Private.as_llvm_linkage() as u32, 9);
    assert_eq!(Linkage::DLLImport.as_llvm_linkage() as u32, 10);
    assert_eq!(Linkage::DLLExport.as_llvm_linkage() as u32, 11);
    assert_eq!(Linkage::ExternalWeak.as_llvm_linkage() as u32, 12);
    assert_eq!(Linkage::GhostLinkage.as_llvm_linkage() as u32, 13);
    assert_eq!(Linkage::Common.as_llvm_linkage() as u32, 14);
    assert_eq!(Linkage::LinkerPrivate.as_llvm_linkage() as u32, 15);
    assert_eq!(Linkage::LinkerPrivateWeak.as_llvm_linkage() as u32, 16);
}

#[test]
fn address_spaces_carry_their_numbers() {
    assert_eq!(AddressSpace::Generic.code(), 0);
    assert_eq!(AddressSpace::Global.code(), 1);
    assert_eq!(AddressSpace::Shared.code(), 3);
    assert_eq!(AddressSpace::Const.code(), 4);
    assert_eq!(AddressSpace::Local.code(), 5);
}

#[test]
fn optimization_levels_carry_llvms_numbers() {
    assert_eq!(OptimizationLevel::Off.code(), LLVMCodeGenOptLevel::LLVMCodeGenLevelNone as u32);
    assert_eq!(OptimizationLevel::Less.code(), LLVMCodeGenOptLevel::LLVMCodeGenLevelLess as u32);
    assert_eq!(
        OptimizationLevel::Default.code(),
        LLVMCodeGenOptLevel::LLVMCodeGenLevelDefault as u32
    );
    assert_eq!(
        OptimizationLevel::Aggressive.code(),
        LLVMCodeGenOptLevel::LLVMCodeGenLevelAggressive as u32
    );
    assert_eq!(OptimizationLevel::Aggressive.code(), 3);
}

#[test]
fn zero_byte_is_found_wherever_it_stands() {
    assert!(!has_interior_nul(""));
    assert!(!has_interior_nul("my_function"));
    assert!(!has_interior_nul("größe"));
    assert!(!has_interior_nul("llvm.module.flags"));
    assert!(has_interior_nul("\0"));
    assert!(has_interior_nul("\0start"));
    assert!(has_interior_nul("mid\0dle"));
    assert!(has_interior_nul("end\0"));
    assert!(has_interior_nul("größe\0"));
}

#[test]
fn null_is_no_view() {
    assert_eq!(FunctionValue::new(0), None);
    assert_eq!(GlobalValue::new(0), None);
    assert_eq!(MetadataValue::new(0), None);
    assert_eq!(FunctionType::new(0), None);
    assert_eq!(BasicType::new(0), None);
    assert_eq!(Target::new(0), None);
}

#[test]
fn views_are_equal_when_their_handles_are() {
    let first = FunctionValue::new(0x40).unwrap();
    let same = FunctionValue::new(0x40).unwrap();
    let other = FunctionValue::new(0x48).unwrap();
    assert_eq!(first, same);
    assert_ne!(first, other);
    assert_eq!(first.as_value_ref(), 0x40);
    assert_eq!(GlobalValue::new(0x50).unwrap().as_value_ref(), 0x50);
    assert_eq!(MetadataValue::new(0x60).unwrap().as_value_ref(), 0x60);
    assert_eq!(FunctionType::new(0x70).unwrap().as_type_ref(), 0x70);
    assert_eq!(BasicType::new(0x80).unwrap().as_type_ref(), 0x80);
    assert_eq!(Target::new(0x90).unwrap().as_target_ref(), 0x90);
    assert_eq!(GlobalValue::new(0x50), GlobalValue::new(0x50));
    assert_ne!(MetadataValue::new(0x60), MetadataValue::new(0x61));
}
