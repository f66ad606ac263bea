//! The execution engine as this library sees it: the wasmtime types that
//! cross the boundary, names for what the engine's calls return, and one
//! wrapper per engine call, each with the contract that the engine documents.
use vstd::prelude::*;
use wasmtime::{
    Extern, Func, Global, Instance, Memory, Module, RefType, SharedMemory, Store, Table, Tag, Val,
    ValType,
};

verus! {

#[verifier::external_type_specification]
#[verifier::external_body]
#[verifier::reject_recursive_types(T)]
pub struct ExStore<T: 'static>(Store<T>);

#[verifier::external_type_specification]
#[verifier::external_body]
pub struct ExInstance(Instance);

#[verifier::external_type_specification]
#[verifier::external_body]
pub struct ExModule(Module);

#[verifier::external_type_specification]
#[verifier::external_body]
pub struct ExMemory(Memory);

#[verifier::external_type_specification]
#[verifier::external_body]
pub struct ExSharedMemory(SharedMemory);

#[verifier::external_type_specification]
#[verifier::external_body]
pub struct ExTable(Table);

#[verifier::external_type_specification]
#[verifier::external_body]
pub struct ExFunc(Func);

#[verifier::external_type_specification]
#[verifier::external_body]
pub struct ExGlobal(Global);

#[verifier::external_type_specification]
#[verifier::external_body]
pub struct ExTag(Tag);

#[verifier::external_type_specification]
#[verifier::external_body]
pub struct ExRefType(RefType);

/// An export of an instance: its variants are visible, their handles opaque.
#[verifier::external_type_specification]
pub struct ExExtern(Extern);

/// A value type of the engine: its variants are visible.
#[verifier::external_type_specification]
pub struct ExValType(ValType);

/// The bytes of linear memory `m` as `s` holds them.
pub uninterp spec fn linear_memory(s: Store<()>, m: Memory) -> Seq<u8>;

/// Whether the store `s` owns the item that `e` refers to.
pub uninterp spec fn store_owns(s: Store<()>, e: Extern) -> bool;

/// Whether the store `s` owns the instance `i`.
pub uninterp spec fn instance_in_store(s: Store<()>, i: Instance) -> bool;

/// What instance `i` exports under `name`, if anything.
pub uninterp spec fn export_named(i: Instance, name: Seq<char>) -> Option<Extern>;

/// The parameter types and the result types of function `f`.
pub uninterp spec fn func_signature(f: Func) -> (Seq<ValType>, Seq<ValType>);

/// The value of global `g` in `s` when it is a 32-bit integer, `None` otherwise.
pub uninterp spec fn global_i32(s: Store<()>, g: Global) -> Option<i32>;

/// The page size of linear memory `m`, in bytes.
pub uninterp spec fn page_size_of(m: Memory) -> nat;

/// The maximum size in pages that linear memory `m` declares, if it declares one.
pub uninterp spec fn max_pages_of(m: Memory) -> Option<nat>;

/// A store only ever gains items: what `before` owns, `after` owns too.
pub open spec fn store_extends(before: Store<()>, after: Store<()>) -> bool {
    &&& forall|e: Extern| store_owns(before, e) ==> #[trigger] store_owns(after, e)
    &&& forall|i: Instance| instance_in_store(before, i) ==> #[trigger] instance_in_store(after, i)
}

/// Every linear memory and every global holds in `after` what it held in `before`.
pub open spec fn same_contents(before: Store<()>, after: Store<()>) -> bool {
    &&& forall|m: Memory| #[trigger] linear_memory(after, m) == linear_memory(before, m)
    &&& forall|g: Global| #[trigger] global_i32(after, g) == global_i32(before, g)
}

/// Relies on `Instance::get_export`: looks up the export `name` of an instance
/// that the store owns; the export belongs to the same store, and the lookup
/// writes no memory and no global.
#[verifier::external_body]
pub(crate) fn get_export(store: &mut Store<()>, instance: &Instance, name: &str) -> (r: Option<Extern>)
    requires
        instance_in_store(*old(store), *instance),
    ensures
        r == export_named(*instance, name@),
        store_extends(*old(store), *final(store)),
        same_contents(*old(store), *final(store)),
        instance_in_store(*final(store), *instance),
        r matches Some(e) ==> store_owns(*final(store), e),
{
    instance.get_export(store, name)
}

/// Relies on `Func::ty`, read through `FuncType::params` and `FuncType::results`:
/// the declared parameter and result types of a function.
#[verifier::external_body]
pub(crate) fn func_type(store: &Store<()>, f: &Func) -> (r: (Vec<ValType>, Vec<ValType>))
    requires
        store_owns(*store, Extern::Func(*f)),
    ensures
        r.0@ == func_signature(*f).0,
        r.1@ == func_signature(*f).1,
{
    let ty = f.ty(store);
    (ty.params().collect(), ty.results().collect())
}

/// Relies on `Instance::new` with no imports: instantiates `module` in the
/// store; on success the store owns the new instance.
#[verifier::external_body]
pub(crate) fn instantiate(store: &mut Store<()>, module: &Module) -> (r: Option<Instance>)
    ensures
        r matches Some(i) ==> instance_in_store(*final(store), i),
        store_extends(*old(store), *final(store)),
{
    Instance::new(store, module, &[]).ok()
}

/// Relies on `Func::call`: runs a function of the store with two `i32`
/// arguments; the result is its single `i64` result, reinterpreted as a `u64`,
/// or `None` when the call fails (a trap, a type mismatch, a host error).
/// Whatever the module does, the store keeps what it owns.
#[verifier::external_body]
pub(crate) fn call_i32_i32_to_i64(store: &mut Store<()>, f: &Func, a: u32, b: u32) -> (r: Option<u64>)
    requires
        store_owns(*old(store), Extern::Func(*f)),
    ensures
        store_extends(*old(store), *final(store)),
{
    let mut results = [Val::I64(0)];
    match f.call(&mut *store, &[Val::I32(a as i32), Val::I32(b as i32)], &mut results) {
        Ok(()) => results[0].i64().map(|v| v as u64),
        Err(_) => None,
    }
}

/// Relies on `Global::ty`, read through `GlobalType::content`: whether a
/// global's type is `i32`, which is when `Global::get` gives an `i32`.
#[verifier::external_body]
pub(crate) fn global_is_i32(store: &Store<()>, g: &Global) -> (r: bool)
    requires
        store_owns(*store, Extern::Global(*g)),
    ensures
        r == (global_i32(*store, *g) is Some),
{
    matches!(g.ty(store).content(), ValType::I32)
}

/// Relies on `Global::get`, read through `Val::i32`: the current value of an
/// `i32` global; reading writes no memory and no global.
#[verifier::external_body]
pub(crate) fn global_get_i32(store: &mut Store<()>, g: &Global) -> (r: Option<i32>)
    requires
        store_owns(*old(store), Extern::Global(*g)),
        global_i32(*old(store), *g) is Some,
    ensures
        r == global_i32(*old(store), *g),
        store_extends(*old(store), *final(store)),
        same_contents(*old(store), *final(store)),
{
    g.get(store).i32()
}

/// Relies on `Memory::data`: the current bytes of a memory as a slice.
#[verifier::external_body]
pub(crate) fn memory_data<'a>(store: &'a Store<()>, m: &Memory) -> (r: &'a [u8])
    requires
        store_owns(*store, Extern::Memory(*m)),
    ensures
        r@ == linear_memory(*store, *m),
{
    m.data(store)
}

/// Relies on `Memory::data_mut`: the current bytes of a memory as a mutable
/// slice; what the slice holds when it is released is what the memory holds.
#[verifier::external_body]
pub(crate) fn memory_data_mut<'a>(store: &'a mut Store<()>, m: &Memory) -> (r: &'a mut [u8])
    requires
        store_owns(*old(store), Extern::Memory(*m)),
    ensures
        r@ == linear_memory(*old(store), *m),
        linear_memory(*final(store), *m) == final(r)@,
        store_extends(*old(store), *final(store)),
{
    m.data_mut(store)
}

/// Relies on `Memory::page_size`: 65536 bytes, or 1 byte for a memory that
/// opts into the custom-page-sizes proposal.
#[verifier::external_body]
pub(crate) fn memory_page_size(store: &Store<()>, m: &Memory) -> (r: u64)
    requires
        store_owns(*store, Extern::Memory(*m)),
    ensures
        r == page_size_of(*m),
        r == 1 || r == 65536,
{
    m.page_size(store)
}

/// Relies on `Memory::ty`, read through `MemoryType::maximum`: the maximum
/// size in pages that a memory declares.
#[verifier::external_body]
pub(crate) fn memory_maximum(store: &Store<()>, m: &Memory) -> (r: Option<u64>)
    requires
        store_owns(*store, Extern::Memory(*m)),
    ensures
        r matches Some(n) ==> max_pages_of(*m) == Some(n as nat),
        r is None ==> max_pages_of(*m) is None,
{
    m.ty(store).maximum()
}

/// Relies on `Memory::write`: copies `data` to `offset` when
/// `offset + data.len()` is within the memory, and writes nothing otherwise.
#[verifier::external_body]
pub(crate) fn memory_write(store: &mut Store<()>, m: &Memory, offset: usize, data: &[u8]) -> (r: bool)
    requires
        store_owns(*old(store), Extern::Memory(*m)),
    ensures
        r <==> offset + data@.len() <= linear_memory(*old(store), *m).len(),
        r ==> linear_memory(*final(store), *m) == crate::bounds::splice(
            linear_memory(*old(store), *m),
            offset as int,
            data@,
        ),
        !r ==> linear_memory(*final(store), *m) == linear_memory(*old(store), *m),
        store_extends(*old(store), *final(store)),
{
    m.write(store, offset, data).is_ok()
}

/// Relies on `Memory::grow`: on success the memory is `delta` pages longer,
/// keeps its bytes, holds zeros in the new pages and stays within its declared
/// maximum; on failure (a maximum, a resource limiter) it is unchanged.
#[verifier::external_body]
pub(crate) fn memory_grow(store: &mut Store<()>, m: &Memory, delta: u64) -> (r: Option<u64>)
    requires
        store_owns(*old(store), Extern::Memory(*m)),
    ensures
        r is Some ==> linear_memory(*final(store), *m).len() == linear_memory(*old(store), *m).len()
            + delta * page_size_of(*m),
        r is Some ==> linear_memory(*final(store), *m).subrange(
            0,
            linear_memory(*old(store), *m).len() as int,
        ) == linear_memory(*old(store), *m),
        r is Some ==> forall|i: int|
            linear_memory(*old(store), *m).len() <= i < linear_memory(*final(store), *m).len()
                ==> #[trigger] linear_memory(*final(store), *m)[i] == 0,
        r is Some ==> (max_pages_of(*m) matches Some(max) ==> linear_memory(*final(store), *m).len()
            <= max * page_size_of(*m)),
        r is None ==> linear_memory(*final(store), *m) == linear_memory(*old(store), *m),
        store_extends(*old(store), *final(store)),
{
    m.grow(store, delta).ok()
}

} // verus!
