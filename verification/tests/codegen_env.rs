use wasi_tcp::env::{
    heap_limits, heap_style_and_offset_guard_size, ptr_type_from_ptr_size, Callee, CalleeInfo,
    FuncEnv, HeapData, HeapOffsets, HeapStyle, MemoryPlan, MemoryStyle, OperandSize, TableData,
    TableOffsets, WasmValType, WASM_PAGE_SIZE,
};

fn plan(minimum: u64, maximum: Option<u64>, style: MemoryStyle) -> MemoryPlan {
    MemoryPlan { minimum, maximum, memory64: false, style, offset_guard_size: 0x8000_0000 }
}

#[test]
fn page_size() {
    assert_eq!(WASM_PAGE_SIZE, 65536);
}

#[test]
fn operand_sizes() {
    assert_eq!(OperandSize::from_bytes(4), OperandSize::S32);
    assert_eq!(OperandSize::from_bytes(8), OperandSize::S64);
}

#[test]
fn pointer_type() {
    assert_eq!(ptr_type_from_ptr_size(8), WasmValType::I64);
    let env = FuncEnv::new(8, true);
    assert_eq!(env.ptr_size(), 8);
    assert_eq!(env.ptr_type(), WasmValType::I64);
    assert!(env.heap_access_spectre_mitigation());
    assert!(!FuncEnv::new(8, false).heap_access_spectre_mitigation());
}

#[test]
fn limits_in_bytes() {
    let dynamic = MemoryStyle::Dynamic { reserve: 0 };
    assert_eq!(heap_limits(&plan(1, Some(2), dynamic)), (65536, Some(131072)));
    assert_eq!(heap_limits(&plan(0, None, dynamic)), (0, None));
    assert_eq!(
        heap_limits(&plan(0xffff_ffff_ffff, Some(0xffff_ffff_ffff), dynamic)),
        (0xffff_ffff_ffff_0000, Some(0xffff_ffff_ffff_0000))
    );
    assert_eq!(
        heap_limits(&plan(0x1_0000_0000_0000, Some(0x1_0000_0000_0000), dynamic)),
        (u64::MAX, None)
    );
    assert_eq!(heap_limits(&plan(u64::MAX, Some(u64::MAX), dynamic)), (u64::MAX, None));
}

#[test]
fn styles() {
    assert_eq!(
        heap_style_and_offset_guard_size(&plan(1, None, MemoryStyle::Static { bound: 0x1_0000 })),
        (HeapStyle::Static { bound: 0x1_0000_0000 }, 0x8000_0000)
    );
    assert_eq!(
        heap_style_and_offset_guard_size(&plan(1, None, MemoryStyle::Dynamic { reserve: 9 })),
        (HeapStyle::Dynamic, 0x8000_0000)
    );
}

#[test]
fn table_is_resolved_once() {
    let mut env = FuncEnv::new(8, false);
    let defined = TableOffsets {
        import_from: None,
        base: 40,
        current_elements: 48,
        pointer_size: 8,
        current_elements_size: 4,
    };
    let expected = TableData {
        offset: 40,
        current_elems_offset: 48,
        import_from: None,
        element_size: OperandSize::S64,
        current_elements_size: OperandSize::S32,
    };
    assert!(!env.table_is_resolved(0));
    assert_eq!(env.resolve_table_data(0, defined), expected);
    assert!(env.table_is_resolved(0));
    assert!(!env.table_is_resolved(1));
    assert!(!env.heap_is_resolved(0));
    let other = TableOffsets {
        import_from: Some(16),
        base: 0,
        current_elements: 8,
        pointer_size: 4,
        current_elements_size: 8,
    };
    assert_eq!(env.resolve_table_data(0, other), expected);
    assert_eq!(
        env.resolve_table_data(1, other),
        TableData {
            offset: 0,
            current_elems_offset: 8,
            import_from: Some(16),
            element_size: OperandSize::S32,
            current_elements_size: OperandSize::S64,
        }
    );
    assert_eq!(env.resolve_table_data(0, other), expected);
}

#[test]
fn heap_is_resolved_once() {
    let mut env = FuncEnv::new(8, false);
    let offsets = HeapOffsets { import_from: Some(24), base: 0, current_length: 8 };
    let first = plan(1, Some(10), MemoryStyle::Static { bound: 0x1_0000 });
    let expected = HeapData {
        offset: 0,
        current_length_offset: 8,
        import_from: Some(24),
        ty: WasmValType::I32,
        style: HeapStyle::Static { bound: 0x1_0000_0000 },
        min_size: 65536,
        max_size: Some(655360),
        offset_guard_size: 0x8000_0000,
    };
    assert_eq!(env.resolve_heap(0, &first, offsets), expected);
    assert!(env.heap_is_resolved(0));
    assert!(!env.heap_is_resolved(3));
    let second = plan(2, None, MemoryStyle::Dynamic { reserve: 0 });
    let local = HeapOffsets { import_from: None, base: 64, current_length: 72 };
    assert_eq!(env.resolve_heap(0, &second, local), expected);
    assert_eq!(
        env.resolve_heap(3, &second, local),
        HeapData {
            offset: 64,
            current_length_offset: 72,
            import_from: None,
            ty: WasmValType::I32,
            style: HeapStyle::Dynamic,
            min_size: 131072,
            max_size: None,
            offset_guard_size: 0x8000_0000,
        }
    );
}

#[test]
fn callees() {
    let env = FuncEnv::new(8, false);
    let local: Callee<&str, ()> = env.callee_from_index("i32 -> i32", 4, false);
    assert_eq!(local, Callee::Local(CalleeInfo { ty: "i32 -> i32", index: 4 }));
    let import: Callee<&str, ()> = env.callee_from_index("() -> ()", 0, true);
    assert_eq!(import, Callee::Import(CalleeInfo { ty: "() -> ()", index: 0 }));
    let reference: Callee<&str, ()> = env.funcref("i64 -> ()");
    assert_eq!(reference, Callee::FuncRef("i64 -> ()"));
}
