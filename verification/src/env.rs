//! What a function sees of its module during code generation: where its
//! tables and linear memories lie, resolved once and then remembered.

use std::collections::HashMap;
use vstd::prelude::*;

verus! {

broadcast use vstd::std_specs::hash::group_hash_axioms;

/// The size in bytes of one page of linear memory.
pub const WASM_PAGE_SIZE: u64 = 0x10000;

/// The width of an operand.
#[derive(Clone, Copy, Debug, PartialEq, Eq, Structural)]
pub enum OperandSize {
    /// 32 bits.
    S32,
    /// 64 bits.
    S64,
}

/// The value types that index a memory and hold a pointer.
#[derive(Clone, Copy, Debug, PartialEq, Eq, Structural)]
pub enum WasmValType {
    I32,
    I64,
}

/// Table metadata.
#[derive(Clone, Copy, Debug, PartialEq, Eq)]
pub struct TableData {
    /// The offset to the base of the table.
    pub offset: u32,
    /// The offset to the current elements field.
    pub current_elems_offset: u32,
    /// If the table is imported, this field contains the offset to locate the
    /// base of the table data.
    pub import_from: Option<u32>,
    /// The size of the table elements.
    pub element_size: OperandSize,
    /// The size of the current elements field.
    pub current_elements_size: OperandSize,
}

/// Style of the heap.
#[derive(Clone, Copy, Debug, PartialEq, Eq)]
pub enum HeapStyle {
    /// Static heap, which has a fixed address.
    Static {
        /// The heap bound in bytes, not including the bytes for the offset
        /// guard pages.
        bound: u64,
    },
    /// Dynamic heap, which can be relocated to a different address when grown.
    /// The bounds are calculated at runtime on every access.
    Dynamic,
}

/// Heap metadata. A heap is a linear memory.
#[derive(Clone, Copy, Debug, PartialEq, Eq)]
pub struct HeapData {
    /// The offset to the base of the heap: from the context pointer if the
    /// memory is defined here, else from the place of the imported memory.
    pub offset: u32,
    /// The offset to the current length field.
    pub current_length_offset: u32,
    /// If the memory is imported, the offset to locate the base of the heap.
    pub import_from: Option<u32>,
    /// The memory type (32 or 64).
    pub ty: WasmValType,
    /// The style of the heap.
    pub style: HeapStyle,
    /// The guaranteed minimum size, in bytes.
    pub min_size: u64,
    /// The maximum heap size in bytes.
    pub max_size: Option<u64>,
    /// Size in bytes of the offset guard pages, located after the heap bounds.
    pub offset_guard_size: u64,
}

/// Metadata about a function callee. Used by the code generation to emit
/// function calls to local or imported functions.
#[derive(Clone, Debug, PartialEq, Eq)]
pub struct CalleeInfo<F> {
    /// The function type.
    pub ty: F,
    /// The callee index in the WebAssembly function index space.
    pub index: u32,
}

/// A function callee. It categorizes how the callee should be treated when
/// performing the call.
#[derive(Clone, Debug, PartialEq, Eq)]
pub enum Callee<F, B> {
    /// Locally defined function.
    Local(CalleeInfo<F>),
    /// Imported function.
    Import(CalleeInfo<F>),
    /// Function reference.
    FuncRef(F),
    /// A built-in function.
    Builtin(B),
}

/// How a memory is laid out at run time.
#[derive(Clone, Copy, Debug, PartialEq, Eq)]
pub enum MemoryStyle {
    /// The memory never moves; `bound` is its limit in pages.
    Static { bound: u64 },
    /// The memory may move when it grows.
    Dynamic { reserve: u64 },
}

/// A memory and the plan for it.
#[derive(Clone, Copy, Debug, PartialEq, Eq)]
pub struct MemoryPlan {
    /// The minimum size in pages.
    pub minimum: u64,
    /// The maximum size in pages, if there is one.
    pub maximum: Option<u64>,
    /// Whether the memory is indexed by 64-bit values.
    pub memory64: bool,
    pub style: MemoryStyle,
    pub offset_guard_size: u64,
}

/// Where the fields of a table lie, as the layout of the context gives
/// them.
#[derive(Clone, Copy, Debug, PartialEq, Eq)]
pub struct TableOffsets {
    /// For an imported table, the offset at which it is found.
    pub import_from: Option<u32>,
    pub base: u32,
    pub current_elements: u32,
    /// The size of a pointer in bytes.
    pub pointer_size: u8,
    /// The size of the current elements field in bytes.
    pub current_elements_size: u8,
}

/// Where the fields of a memory lie, as the layout of the context gives
/// them.
#[derive(Clone, Copy, Debug, PartialEq, Eq)]
pub struct HeapOffsets {
    /// For an imported memory, the offset at which it is found.
    pub import_from: Option<u32>,
    pub base: u32,
    pub current_length: u32,
}

/// The operand size for a size in bytes.
pub open spec fn operand_size(bytes: u8) -> OperandSize {
    if bytes == 4 {
        OperandSize::S32
    } else {
        OperandSize::S64
    }
}

/// The metadata of a table that lies at `offsets`.
pub open spec fn table_data(offsets: TableOffsets) -> TableData {
    TableData {
        import_from: offsets.import_from,
        offset: offsets.base,
        current_elems_offset: offsets.current_elements,
        element_size: operand_size(offsets.pointer_size),
        current_elements_size: operand_size(offsets.current_elements_size),
    }
}

/// The least and the greatest size of a memory in bytes. A least size that
/// does not fit is the largest number; a greatest size that does not fit is
/// none.
pub open spec fn limits_in_bytes(plan: MemoryPlan) -> (u64, Option<u64>) {
    (
        if plan.minimum * WASM_PAGE_SIZE > u64::MAX {
            u64::MAX
        } else {
            (plan.minimum * WASM_PAGE_SIZE) as u64
        },
        match plan.maximum {
            Some(max) => if max * WASM_PAGE_SIZE > u64::MAX {
                None
            } else {
                Some((max * WASM_PAGE_SIZE) as u64)
            },
            None => None,
        },
    )
}

/// The style of the heap of a memory, its bound in bytes, and the size of
/// its guard.
pub open spec fn style_and_guard(plan: MemoryPlan) -> (HeapStyle, u64) {
    match plan.style {
        MemoryStyle::Static { bound } => (
            HeapStyle::Static { bound: (bound * WASM_PAGE_SIZE) as u64 },
            plan.offset_guard_size,
        ),
        MemoryStyle::Dynamic { .. } => (HeapStyle::Dynamic, plan.offset_guard_size),
    }
}

/// The bound of a static memory fits into its type when given in bytes.
pub open spec fn bound_fits(plan: MemoryPlan) -> bool {
    plan.style matches MemoryStyle::Static { bound } ==> bound * WASM_PAGE_SIZE <= u64::MAX
}

/// The metadata of the heap of a 32-bit memory that lies at `offsets`.
pub open spec fn heap_data(plan: MemoryPlan, offsets: HeapOffsets) -> HeapData {
    HeapData {
        offset: offsets.base,
        import_from: offsets.import_from,
        current_length_offset: offsets.current_length,
        style: style_and_guard(plan).0,
        ty: WasmValType::I32,
        min_size: limits_in_bytes(plan).0,
        max_size: limits_in_bytes(plan).1,
        offset_guard_size: style_and_guard(plan).1,
    }
}

impl OperandSize {
    /// The operand size for a size of 4 or 8 bytes.
    pub fn from_bytes(bytes: u8) -> (size: OperandSize)
        requires
            bytes == 4 || bytes == 8,
        ensures
            size == operand_size(bytes),
    {
        if bytes == 4 {
            OperandSize::S32
        } else {
            OperandSize::S64
        }
    }
}

/// The type of a pointer of the given size. Only 64-bit targets exist.
pub fn ptr_type_from_ptr_size(size: u8) -> (ty: WasmValType)
    requires
        size == 8,
    ensures
        ty == WasmValType::I64,
{
    WasmValType::I64
}

fn pages_to_bytes(pages: u64) -> (bytes: Option<u64>)
    ensures
        bytes == if pages * WASM_PAGE_SIZE > u64::MAX {
            None::<u64>
        } else {
            Some((pages * WASM_PAGE_SIZE) as u64)
        },
{
    if pages > u64::MAX / WASM_PAGE_SIZE {
        None
    } else {
        Some(pages * WASM_PAGE_SIZE)
    }
}

/// The style of the heap of a memory and the size of its guard.
pub fn heap_style_and_offset_guard_size(plan: &MemoryPlan) -> (r: (HeapStyle, u64))
    requires
        bound_fits(*plan),
    ensures
        r == style_and_guard(*plan),
{
    match plan.style {
        MemoryStyle::Static { bound } => (
            HeapStyle::Static { bound: bound * WASM_PAGE_SIZE },
            plan.offset_guard_size,
        ),
        MemoryStyle::Dynamic { .. } => (HeapStyle::Dynamic, plan.offset_guard_size),
    }
}

/// The least and the greatest size of a memory in bytes.
pub fn heap_limits(plan: &MemoryPlan) -> (r: (u64, Option<u64>))
    ensures
        r == limits_in_bytes(*plan),
{
    let min = match pages_to_bytes(plan.minimum) {
        Some(bytes) => bytes,
        None => u64::MAX,
    };
    let max = match plan.maximum {
        Some(max) => pages_to_bytes(max),
        None => None,
    };
    (min, max)
}

/// The function environment: what was resolved so far of the module's
/// tables and memories, and the settings of the target.
pub struct FuncEnv {
    /// Track resolved table information.
    resolved_tables: HashMap<u32, TableData>,
    /// Track resolved heap information.
    resolved_heaps: HashMap<u32, HeapData>,
    /// The size of a pointer of the target, in bytes.
    ptr_size: u8,
    /// Whether or not to enable Spectre mitigation on heap bounds checks.
    heap_access_spectre_mitigation: bool,
}

impl FuncEnv {
    /// The tables resolved so far, by index.
    pub closed spec fn tables(&self) -> Map<u32, TableData> {
        self.resolved_tables@
    }

    /// The heaps resolved so far, by index.
    pub closed spec fn heaps(&self) -> Map<u32, HeapData> {
        self.resolved_heaps@
    }

    pub closed spec fn spec_ptr_size(&self) -> u8 {
        self.ptr_size
    }

    pub closed spec fn spec_spectre_mitigation(&self) -> bool {
        self.heap_access_spectre_mitigation
    }

    /// Create a new function environment, with nothing resolved.
    pub fn new(ptr_size: u8, heap_access_spectre_mitigation: bool) -> (env: FuncEnv)
        ensures
            env.tables() == Map::<u32, TableData>::empty(),
            env.heaps() == Map::<u32, HeapData>::empty(),
            env.spec_ptr_size() == ptr_size,
            env.spec_spectre_mitigation() == heap_access_spectre_mitigation,
    {
        FuncEnv {
            resolved_tables: HashMap::new(),
            resolved_heaps: HashMap::new(),
            ptr_size,
            heap_access_spectre_mitigation,
        }
    }

    /// Returns the pointer size for the target ISA.
    pub fn ptr_size(&self) -> (size: u8)
        ensures
            size == self.spec_ptr_size(),
    {
        self.ptr_size
    }

    /// Derive the pointer type from the pointer size.
    pub fn ptr_type(&self) -> (ty: WasmValType)
        requires
            self.spec_ptr_size() == 8,
        ensures
            ty == WasmValType::I64,
    {
        ptr_type_from_ptr_size(self.ptr_size())
    }

    /// Returns true if Spectre mitigations are enabled for heap bounds check.
    pub fn heap_access_spectre_mitigation(&self) -> (enabled: bool)
        ensures
            enabled == self.spec_spectre_mitigation(),
    {
        self.heap_access_spectre_mitigation
    }

    /// Resolves a function reference from the type that its type index
    /// stands for.
    pub fn funcref<F, B>(&self, ty: F) -> (callee: Callee<F, B>)
        ensures
            callee == Callee::<F, B>::FuncRef(ty),
    {
        Callee::FuncRef(ty)
    }

    /// Resolves a function callee from its index and type: an import where
    /// the module imports the function, else a local function.
    pub fn callee_from_index<F, B>(&self, ty: F, idx: u32, imported: bool) -> (callee: Callee<
        F,
        B,
    >)
        ensures
            callee == if imported {
                Callee::<F, B>::Import(CalleeInfo { ty, index: idx })
            } else {
                Callee::<F, B>::Local(CalleeInfo { ty, index: idx })
            },
    {
        let info = CalleeInfo { ty, index: idx };
        if imported {
            Callee::Import(info)
        } else {
            Callee::Local(info)
        }
    }

    /// Whether the table with the given index was resolved before.
    pub fn table_is_resolved(&self, index: u32) -> (resolved: bool)
        ensures
            resolved == self.tables().contains_key(index),
    {
        self.resolved_tables.contains_key(&index)
    }

    /// Whether the heap of the memory with the given index was resolved
    /// before.
    pub fn heap_is_resolved(&self, index: u32) -> (resolved: bool)
        ensures
            resolved == self.heaps().contains_key(index),
    {
        self.resolved_heaps.contains_key(&index)
    }

    /// Returns the table information for the given table index. A table
    /// that was resolved before keeps what was found then, whatever
    /// `offsets` says now; else the information is built from `offsets`
    /// and remembered.
    pub fn resolve_table_data(&mut self, index: u32, offsets: TableOffsets) -> (data: TableData)
        requires
            !old(self).tables().contains_key(index) ==> (offsets.pointer_size == 4
                || offsets.pointer_size == 8) && (offsets.current_elements_size == 4
                || offsets.current_elements_size == 8),
        ensures
            data == if old(self).tables().contains_key(index) {
                old(self).tables()[index]
            } else {
                table_data(offsets)
            },
            final(self).tables() == old(self).tables().insert(index, data),
            final(self).heaps() == old(self).heaps(),
            final(self).spec_ptr_size() == old(self).spec_ptr_size(),
            final(self).spec_spectre_mitigation() == old(self).spec_spectre_mitigation(),
    {
        match self.resolved_tables.get(&index) {
            Some(data) => {
                let data = *data;
                assert(self.resolved_tables@ =~= old(self).tables().insert(index, data));
                data
            },
            None => {
                let data = TableData {
                    import_from: offsets.import_from,
                    offset: offsets.base,
                    current_elems_offset: offsets.current_elements,
                    element_size: OperandSize::from_bytes(offsets.pointer_size),
                    current_elements_size: OperandSize::from_bytes(
                        offsets.current_elements_size,
                    ),
                };
                self.resolved_tables.insert(index, data);
                data
            },
        }
    }

    /// Resolves the heap of the memory with the given index. A heap that
    /// was resolved before keeps what was found then; else the information
    /// is built from the memory's plan and `offsets` and remembered. Only
    /// 32-bit memories exist.
    pub fn resolve_heap(&mut self, index: u32, plan: &MemoryPlan, offsets: HeapOffsets) -> (data:
        HeapData)
        requires
            !old(self).heaps().contains_key(index) ==> !plan.memory64 && bound_fits(*plan),
        ensures
            data == if old(self).heaps().contains_key(index) {
                old(self).heaps()[index]
            } else {
                heap_data(*plan, offsets)
            },
            final(self).heaps() == old(self).heaps().insert(index, data),
            final(self).tables() == old(self).tables(),
            final(self).spec_ptr_size() == old(self).spec_ptr_size(),
            final(self).spec_spectre_mitigation() == old(self).spec_spectre_mitigation(),
    {
        match self.resolved_heaps.get(&index) {
            Some(data) => {
                let data = *data;
                assert(self.resolved_heaps@ =~= old(self).heaps().insert(index, data));
                data
            },
            None => {
                let (min_size, max_size) = heap_limits(plan);
                let (style, offset_guard_size) = heap_style_and_offset_guard_size(plan);
                let data = HeapData {
                    offset: offsets.base,
                    import_from: offsets.import_from,
                    current_length_offset: offsets.current_length,
                    style,
                    ty: WasmValType::I32,
                    min_size,
                    max_size,
                    offset_guard_size,
                };
                self.resolved_heaps.insert(index, data);
                data
            },
        }
    }
}

} // verus!
