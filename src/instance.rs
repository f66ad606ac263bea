//! The wrapper around one instantiated module. It owns the store, so no other
//! handle can reach the module's memory while the wrapper lives, and every
//! access re-reads the memory's current extent instead of caching it.
use vstd::prelude::*;
use wasmtime::{Extern, Func, Instance, Memory, Module, Store, Table, ValType};
use crate::bounds::{checked_range, fits, span, splice};
use crate::engine::{
    call_i32_i32_to_i64, export_named, func_signature, func_type, get_export, global_get_i32,
    global_i32, global_is_i32, instance_in_store, instantiate, linear_memory, max_pages_of,
    memory_data, memory_data_mut, memory_grow, memory_maximum, memory_page_size, memory_write,
    page_size_of, same_contents, store_extends, store_owns,
};
use crate::error::Error;

verus! {

/// Whether a signature is the entrypoint convention `(i32, i32) -> i64`.
pub open spec fn is_entrypoint_signature(sig: (Seq<ValType>, Seq<ValType>)) -> bool {
    &&& sig.0.len() == 2
    &&& sig.0[0] is I32
    &&& sig.0[1] is I32
    &&& sig.1.len() == 1
    &&& sig.1[0] is I64
}

/// The indirect function table that instance `i` exports, if it exports one.
pub open spec fn table_export(i: Instance) -> Option<Table> {
    match export_named(i, "__indirect_function_table"@) {
        Some(Extern::Table(t)) => Some(t),
        _ => None,
    }
}

/// What growing linear memory by `pages` pages of `page` bytes leaves: on
/// success (`ok`) memory is that much longer and keeps its bytes; on failure
/// it is unchanged.
pub open spec fn grown_by(before: Seq<u8>, after: Seq<u8>, pages: nat, page: nat, ok: bool) -> bool {
    if ok {
        &&& after.len() == before.len() + pages * page
        &&& after.subrange(0, before.len() as int) == before
    } else {
        after == before
    }
}

/// The size that `memory_size` reports for `len` bytes: `len`, held at `u32::MAX`.
pub open spec fn reported_size(len: nat) -> u32 {
    if len > u32::MAX {
        u32::MAX
    } else {
        len as u32
    }
}

/// Growing by `pages` and then asking for the size: after a successful growth
/// `memory_size` reports the old size plus `pages` pages (as long as the new
/// size fits a `u32`); after a refused one it reports the old size.
pub proof fn lemma_grow_then_size(before: Seq<u8>, after: Seq<u8>, pages: u32, page: nat, ok: bool)
    requires
        grown_by(before, after, pages as nat, page, ok),
    ensures
        ok && after.len() <= u32::MAX ==> reported_size(after.len()) == before.len() + pages * page,
        !ok ==> reported_size(after.len()) == reported_size(before.len()),
{
}

fn has_entrypoint_signature(params: &Vec<ValType>, results: &Vec<ValType>) -> (r: bool)
    ensures
        r == is_entrypoint_signature((params@, results@)),
{
    params.len() == 2 && matches!(params[0], ValType::I32) && matches!(params[1], ValType::I32)
        && results.len() == 1 && matches!(results[0], ValType::I64)
}

fn get_table(store: &mut Store<()>, instance: &Instance) -> (r: Option<Table>)
    requires
        instance_in_store(*old(store), *instance),
    ensures
        r == table_export(*instance),
        store_extends(*old(store), *final(store)),
        same_contents(*old(store), *final(store)),
        instance_in_store(*final(store), *instance),
{
    match get_export(store, instance, "__indirect_function_table") {
        Some(Extern::Table(t)) => Some(t),
        _ => None,
    }
}

fn get_linear_memory(store: &mut Store<()>, instance: &Instance) -> (r: Result<Memory, Error>)
    requires
        instance_in_store(*old(store), *instance),
    ensures
        match export_named(*instance, "memory"@) {
            None => r == Err::<Memory, Error>(Error::MemoryNotExported),
            Some(Extern::Memory(m)) => r == Ok::<Memory, Error>(m),
            Some(_) => r == Err::<Memory, Error>(Error::MemoryWrongKind),
        },
        r matches Ok(m) ==> store_owns(*final(store), Extern::Memory(m)),
        store_extends(*old(store), *final(store)),
        same_contents(*old(store), *final(store)),
        instance_in_store(*final(store), *instance),
{
    match get_export(store, instance, "memory") {
        Some(Extern::Memory(m)) => Ok(m),
        Some(_) => Err(Error::MemoryWrongKind),
        None => Err(Error::MemoryNotExported),
    }
}

/// One instantiated module together with the store that owns it.
pub struct InstanceWrapper {
    store: Store<()>,
    instance: Instance,
    memory: Memory,
    table: Option<Table>,
}

impl InstanceWrapper {
    /// The store owns both the instance and its linear memory.
    pub closed spec fn wf(&self) -> bool {
        &&& store_owns(self.store, Extern::Memory(self.memory))
        &&& instance_in_store(self.store, self.instance)
    }

    /// The current bytes of linear memory.
    pub closed spec fn mem(&self) -> Seq<u8> {
        linear_memory(self.store, self.memory)
    }

    /// The store that the wrapper owns.
    pub closed spec fn store_view(&self) -> Store<()> {
        self.store
    }

    /// The wrapped instance.
    pub closed spec fn instance_view(&self) -> Instance {
        self.instance
    }

    /// The instance's linear memory export.
    pub closed spec fn memory_view(&self) -> Memory {
        self.memory
    }

    /// The instance's indirect function table export, if any.
    pub closed spec fn table_view(&self) -> Option<Table> {
        self.table
    }

    /// The maximum size in pages that linear memory declares, if any.
    pub closed spec fn max_pages_view(&self) -> Option<nat> {
        max_pages_of(self.memory)
    }

    /// The size of one page of linear memory, in bytes.
    pub closed spec fn page_bytes(&self) -> nat {
        page_size_of(self.memory)
    }

    /// The instance, memory and table handles of `self` and `other` agree.
    pub open spec fn same_handles(&self, other: &Self) -> bool {
        &&& self.instance_view() == other.instance_view()
        &&& self.memory_view() == other.memory_view()
        &&& self.table_view() == other.table_view()
    }

    /// Takes `instance` with the store that owns it. The store moves into the
    /// wrapper, so nothing else can reach the instance's memory meanwhile.
    pub fn new(store: Store<()>, instance: Instance) -> (r: Result<Self, Error>)
        requires
            instance_in_store(store, instance),
        ensures
            match export_named(instance, "memory"@) {
                None => r == Err::<Self, Error>(Error::MemoryNotExported),
                Some(Extern::Memory(m)) => r matches Ok(w) && w.wf() && w.instance_view()
                    == instance && w.memory_view() == m && w.table_view() == table_export(
                    instance,
                ) && w.mem() == linear_memory(store, m),
                Some(_) => r == Err::<Self, Error>(Error::MemoryWrongKind),
            },
    {
        let mut store = store;
        let table = get_table(&mut store, &instance);
        let memory = match get_linear_memory(&mut store, &instance) {
            Ok(m) => m,
            Err(e) => return Err(e),
        };
        Ok(InstanceWrapper { store, instance, memory, table })
    }

    /// Instantiates `module`, which must need no imports, in `store`, and
    /// wraps the instance.
    pub fn instantiate(store: Store<()>, module: &Module) -> (r: Result<Self, Error>)
        ensures
            r matches Ok(w) ==> w.wf() && export_named(w.instance_view(), "memory"@) == Some(
                Extern::Memory(w.memory_view()),
            ) && w.table_view() == table_export(w.instance_view()),
            r matches Err(e) ==> e == Error::InstantiationFailed || e == Error::MemoryNotExported
                || e == Error::MemoryWrongKind,
    {
        let mut store = store;
        match instantiate(&mut store, module) {
            Some(instance) => Self::new(store, instance),
            None => Err(Error::InstantiationFailed),
        }
    }

    /// Grows linear memory by `pages` pages. The engine may refuse (a maximum,
    /// a resource limiter); memory is then unchanged.
    pub fn grow_memory(&mut self, pages: u32) -> (r: Result<(), Error>)
        requires
            old(self).wf(),
        ensures
            final(self).wf(),
            final(self).same_handles(old(self)),
            grown_by(old(self).mem(), final(self).mem(), pages as nat, old(self).page_bytes(), r is Ok),
            r is Ok ==> forall|i: int|
                old(self).mem().len() <= i < final(self).mem().len() ==> #[trigger] final(self).mem()[i]
                    == 0,
            r is Ok ==> (old(self).max_pages_view() matches Some(max) ==> final(self).mem().len()
                <= max * old(self).page_bytes()),
            r is Err ==> r == Err::<(), Error>(Error::GrowthFailed),
    {
        match memory_grow(&mut self.store, &self.memory, pages as u64) {
            Some(_) => Ok(()),
            None => Err(Error::GrowthFailed),
        }
    }

    /// Resolves the entrypoint exported as `name`; it must have the signature
    /// `(i32, i32) -> i64`.
    pub fn resolve_entrypoint(&mut self, name: &str) -> (r: Result<Func, Error>)
        requires
            old(self).wf(),
        ensures
            final(self).wf(),
            final(self).same_handles(old(self)),
            final(self).mem() == old(self).mem(),
            match export_named(old(self).instance_view(), name@) {
                None => r == Err::<Func, Error>(Error::EntrypointNotFound),
                Some(Extern::Func(f)) => if is_entrypoint_signature(func_signature(f)) {
                    r == Ok::<Func, Error>(f)
                } else {
                    r == Err::<Func, Error>(Error::EntrypointWrongSignature)
                },
                Some(_) => r == Err::<Func, Error>(Error::EntrypointNotAFunction),
            },
            r matches Ok(f) ==> store_owns(final(self).store_view(), Extern::Func(f)),
    {
        let export = get_export(&mut self.store, &self.instance, name);
        match export {
            Some(Extern::Func(f)) => {
                let (params, results) = func_type(&self.store, &f);
                if has_entrypoint_signature(&params, &results) {
                    Ok(f)
                } else {
                    Err(Error::EntrypointWrongSignature)
                }
            },
            Some(_) => Err(Error::EntrypointNotAFunction),
            None => Err(Error::EntrypointNotFound),
        }
    }

    /// Runs the entrypoint `f`, which the wrapped store owns, on the packed
    /// pointer and length `ptr`, `len`, and returns its `i64` result as a
    /// `u64`. A function of another signature is refused without running it.
    /// The module may change memory as it runs; the handles stay as they were.
    pub fn call_entrypoint(&mut self, f: &Func, ptr: u32, len: u32) -> (r: Result<u64, Error>)
        requires
            old(self).wf(),
            store_owns(old(self).store_view(), Extern::Func(*f)),
        ensures
            final(self).wf(),
            final(self).same_handles(old(self)),
            !is_entrypoint_signature(func_signature(*f)) ==> r == Err::<u64, Error>(
                Error::EntrypointWrongSignature,
            ) && final(self).mem() == old(self).mem(),
            is_entrypoint_signature(func_signature(*f)) ==> (r is Ok || r == Err::<u64, Error>(
                Error::CallFailed,
            )),
    {
        let (params, results) = func_type(&self.store, f);
        if !has_entrypoint_signature(&params, &results) {
            return Err(Error::EntrypointWrongSignature);
        }
        match call_i32_i32_to_i64(&mut self.store, f, ptr, len) {
            Some(v) => Ok(v),
            None => Err(Error::CallFailed),
        }
    }

    /// The indirect function table of the instance, if it exports one.
    pub fn table(&self) -> (r: Option<&Table>)
        ensures
            r is None <==> self.table_view() is None,
            r matches Some(t) ==> self.table_view() == Some(*t),
    {
        match &self.table {
            Some(t) => Some(t),
            None => None,
        }
    }

    /// The size of linear memory in bytes, held at `u32::MAX`.
    pub fn memory_size(&self) -> (r: u32)
        requires
            self.wf(),
        ensures
            r == reported_size(self.mem().len()),
            self.mem().len() <= usize::MAX,
    {
        let extent = memory_data(&self.store, &self.memory).len();
        if extent > u32::MAX as usize {
            u32::MAX
        } else {
            extent as u32
        }
    }

    /// The size of one page of linear memory in bytes.
    pub fn page_size(&self) -> (r: u64)
        requires
            self.wf(),
        ensures
            r == self.page_bytes(),
            r == 1 || r == 65536,
    {
        memory_page_size(&self.store, &self.memory)
    }

    /// The size of linear memory in pages.
    pub fn memory_pages(&self) -> (r: u64)
        requires
            self.wf(),
        ensures
            r == self.mem().len() / self.page_bytes(),
    {
        let extent = memory_data(&self.store, &self.memory).len();
        let page = memory_page_size(&self.store, &self.memory);
        extent as u64 / page
    }

    /// The maximum size in pages that linear memory declares, if any.
    pub fn max_pages(&self) -> (r: Option<u64>)
        requires
            self.wf(),
        ensures
            r matches Some(n) ==> self.max_pages_view() == Some(n as nat),
            r is None ==> self.max_pages_view() is None,
    {
        memory_maximum(&self.store, &self.memory)
    }

    /// Linear memory as a slice, for reading in place.
    pub fn memory(&self) -> (r: &[u8])
        requires
            self.wf(),
        ensures
            r@ == self.mem(),
    {
        memory_data(&self.store, &self.memory)
    }

    /// Linear memory as a mutable slice, for a collaborator such as a heap
    /// allocator that works on the bytes in place. What the slice holds when
    /// it is released is what linear memory holds; it cannot outlive the
    /// borrow of the wrapper, so no growth can happen while it is held.
    pub fn memory_mut(&mut self) -> (r: &mut [u8])
        requires
            old(self).wf(),
        ensures
            r@ == old(self).mem(),
            final(self).mem() == final(r)@,
            final(self).wf(),
            final(self).same_handles(old(self)),
    {
        memory_data_mut(&mut self.store, &self.memory)
    }

    /// Reads the 32-bit global `__heap_base`, where the module's static data
    /// ends and free heap begins.
    pub fn extract_heap_base(&mut self) -> (r: Result<u32, Error>)
        requires
            old(self).wf(),
        ensures
            final(self).wf(),
            final(self).same_handles(old(self)),
            final(self).mem() == old(self).mem(),
            match export_named(old(self).instance_view(), "__heap_base"@) {
                None => r == Err::<u32, Error>(Error::HeapBaseNotFound),
                Some(Extern::Global(g)) => match global_i32(old(self).store_view(), g) {
                    Some(v) => r == Ok::<u32, Error>(v as u32),
                    None => r == Err::<u32, Error>(Error::HeapBaseNotI32),
                },
                Some(_) => r == Err::<u32, Error>(Error::HeapBaseNotAGlobal),
            },
    {
        let export = get_export(&mut self.store, &self.instance, "__heap_base");
        match export {
            Some(Extern::Global(g)) => {
                if !global_is_i32(&self.store, &g) {
                    return Err(Error::HeapBaseNotI32);
                }
                match global_get_i32(&mut self.store, &g) {
                    Some(v) => Ok(v as u32),
                    None => Err(Error::HeapBaseNotI32),
                }
            },
            Some(_) => Err(Error::HeapBaseNotAGlobal),
            None => Err(Error::HeapBaseNotFound),
        }
    }

    /// Copies the `dest.len()` bytes of linear memory that start at `address`
    /// into `dest`; fails, leaving `dest` as it was, when they pass the end.
    pub fn read_memory_into(&self, address: u32, dest: &mut [u8]) -> (r: Result<(), Error>)
        requires
            self.wf(),
        ensures
            self.mem().len() <= usize::MAX,
            final(dest)@.len() == old(dest)@.len(),
            r is Ok <==> fits(address as int, old(dest)@.len() as int, self.mem().len() as int),
            r is Ok ==> final(dest)@ == span(self.mem(), address as int, old(dest)@.len() as int),
            r is Err ==> r == Err::<(), Error>(Error::OutOfBounds) && final(dest)@ == old(dest)@,
    {
        let memory = memory_data(&self.store, &self.memory);
        let range = match checked_range(address as usize, dest.len(), memory.len()) {
            Some(range) => range,
            None => return Err(Error::OutOfBounds),
        };
        let mut i: usize = 0;
        while i < dest.len()
            invariant
                range.start == address,
                range.end == address + old(dest)@.len(),
                range.end <= memory@.len(),
                memory@ == self.mem(),
                dest@.len() == old(dest)@.len(),
                0 <= i <= dest@.len(),
                forall|j: int| 0 <= j < i ==> dest@[j] == memory@[range.start + j],
            decreases dest@.len() - i,
        {
            dest[i] = memory[range.start + i];
            i = i + 1;
        }
        assert(dest@ =~= span(self.mem(), address as int, old(dest)@.len() as int));
        Ok(())
    }

    /// Writes `data` to linear memory from `address` on; fails, writing
    /// nothing, when it would pass the end.
    pub fn write_memory_from(&mut self, address: u32, data: &[u8]) -> (r: Result<(), Error>)
        requires
            old(self).wf(),
        ensures
            final(self).wf(),
            final(self).same_handles(old(self)),
            old(self).mem().len() <= usize::MAX,
            r is Ok <==> fits(address as int, data@.len() as int, old(self).mem().len() as int),
            r is Ok ==> final(self).mem() == splice(old(self).mem(), address as int, data@),
            r is Err ==> r == Err::<(), Error>(Error::OutOfBounds) && final(self).mem() == old(
                self,
            ).mem(),
    {
        let extent = memory_data(&self.store, &self.memory).len();
        let range = match checked_range(address as usize, data.len(), extent) {
            Some(range) => range,
            None => return Err(Error::OutOfBounds),
        };
        if memory_write(&mut self.store, &self.memory, range.start, data) {
            Ok(())
        } else {
            Err(Error::OutOfBounds)
        }
    }
}

} // verus!
