//! Walking the target's name table and object table, and resolving object
//! records into qualified names.
use crate::memory::{
    read_u32, read_u32_spec, read_u64, read_u64_spec, AccessFault, MemoryAccessor,
};
use vstd::prelude::*;

verus! {

/// Distance between consecutive slots of a table (one pointer each).
pub const SLOT_STRIDE: usize = 8;

/// Offset of the text inside a name entry.
pub const NAME_TEXT_OFFSET: usize = 0x18;

/// Longest name text read from an entry; longer text is cut there.
pub const NAME_MAX_LEN: usize = 64;

/// Offset of the "outer" pointer inside an object record.
pub const OUTER_OFFSET: usize = 0x38;

/// Offset of the 32-bit name-table index inside an object record.
pub const NAME_INDEX_OFFSET: usize = 0x40;

/// Offset of the "class" pointer inside an object record.
pub const CLASS_OFFSET: usize = 0x48;

/// Longest outer chain followed before name resolution gives up.
pub const MAX_OUTER_DEPTH: usize = 64;

/// Consecutive empty name slots after which the name table counts as exhausted.
pub const NAME_RUN_THRESHOLD: usize = 10000;

/// Consecutive empty object slots after which the object table counts as exhausted.
pub const OBJECT_RUN_THRESHOLD: usize = 100;

/// The separator between the parts of a qualified name (`.`).
pub const SEPARATOR: u8 = 0x2e;

/// Why a walk over the target's tables stopped.
#[derive(Debug, Clone, Copy, PartialEq, Eq, Structural)]
pub enum ReflectError {
    /// A read touched memory that cannot be read.
    AccessFault,
    /// A name that had to exist is missing, or an outer chain is too deep.
    NameResolutionFailure,
}

/// An object record resolved into its address, qualified name and class name.
pub struct UObject {
    pub address: usize,
    pub name: Vec<u8>,
    pub class_name: Option<Vec<u8>>,
}

/// What a resolved object stands for.
pub struct ResolvedView {
    pub address: usize,
    pub name: Seq<u8>,
    pub class_name: Option<Seq<u8>>,
}

pub open spec fn opt_view(o: Option<Vec<u8>>) -> Option<Seq<u8>> {
    match o {
        Some(v) => Some(v@),
        None => None,
    }
}

impl View for UObject {
    type V = ResolvedView;

    open spec fn view(&self) -> ResolvedView {
        ResolvedView { address: self.address, name: self.name@, class_name: opt_view(self.class_name) }
    }
}

/// The views of a sequence of resolved objects, in order.
pub open spec fn objects_view(v: Seq<UObject>) -> Seq<ResolvedView> {
    v.map_values(|o: UObject| o@)
}

/// Each object's view sits at its index.
pub proof fn lemma_objects_view_index(v: Seq<UObject>)
    ensures
        objects_view(v).len() == v.len(),
        forall|i: int| 0 <= i < v.len() ==> #[trigger] objects_view(v)[i] == v[i]@,
{
}

/// One entry of the name table.
pub struct NameEntry {
    pub index: usize,
    pub name: Vec<u8>,
}

impl View for NameEntry {
    type V = (usize, Seq<u8>);

    open spec fn view(&self) -> (usize, Seq<u8>) {
        (self.index, self.name@)
    }
}

pub open spec fn names_view(v: Seq<NameEntry>) -> Seq<(usize, Seq<u8>)> {
    v.map_values(|e: NameEntry| e@)
}

pub open spec fn fault<T>(o: Option<T>) -> Result<T, ReflectError> {
    match o {
        Some(v) => Ok(v),
        None => Err(ReflectError::AccessFault),
    }
}

/// A readable byte inside the address range.
pub open spec fn mem_byte<M: MemoryAccessor>(m: &M, a: int) -> Option<u8> {
    if 0 <= a <= usize::MAX {
        m.byte_at(a)
    } else {
        None
    }
}

/// The pointer stored in slot `idx` of the table whose slots start at `table`.
pub open spec fn slot_spec<M: MemoryAccessor>(m: &M, table: int, idx: int) -> Result<u64, ReflectError> {
    fault(read_u64_spec(m, table + SLOT_STRIDE * idx))
}

/// Text at `a`: at most `fuel` bytes, ending before the first zero byte.
pub open spec fn cstr_spec<M: MemoryAccessor>(m: &M, a: int, fuel: nat) -> Option<Seq<u8>>
    decreases fuel,
{
    if fuel == 0 {
        Some(Seq::empty())
    } else {
        match mem_byte(m, a) {
            None => None,
            Some(b) => if b == 0 {
                Some(Seq::empty())
            } else {
                match cstr_spec(m, a + 1, (fuel - 1) as nat) {
                    None => None,
                    Some(s) => Some(seq![b] + s),
                }
            },
        }
    }
}

/// The name held by slot `idx` of the name table: none for an empty slot.
pub open spec fn resolve_name_spec<M: MemoryAccessor>(m: &M, names: int, idx: int) -> Result<Option<Seq<u8>>, ReflectError> {
    match slot_spec(m, names, idx) {
        Err(e) => Err(e),
        Ok(p) => if p == 0 {
            Ok(None)
        } else {
            match cstr_spec(m, p + NAME_TEXT_OFFSET, NAME_MAX_LEN as nat) {
                None => Err(ReflectError::AccessFault),
                Some(s) => Ok(Some(s)),
            }
        },
    }
}

/// The record's own (unqualified) name; an empty name slot is a failure.
pub open spec fn own_name_spec<M: MemoryAccessor>(m: &M, names: int, addr: int) -> Result<Seq<u8>, ReflectError> {
    match read_u32_spec(m, addr + NAME_INDEX_OFFSET) {
        None => Err(ReflectError::AccessFault),
        Some(idx) => match resolve_name_spec(m, names, idx as int) {
            Err(e) => Err(e),
            Ok(None) => Err(ReflectError::NameResolutionFailure),
            Ok(Some(s)) => Ok(s),
        },
    }
}

/// The record's outer pointer.
pub open spec fn outer_spec<M: MemoryAccessor>(m: &M, addr: int) -> Result<u64, ReflectError> {
    fault(read_u64_spec(m, addr + OUTER_OFFSET))
}

/// The names along the outer chain starting at `addr`, each followed by the
/// separator, innermost first; at most `depth` records are visited.
pub open spec fn outer_chain_spec<M: MemoryAccessor>(m: &M, names: int, addr: int, depth: nat) -> Result<Seq<u8>, ReflectError>
    decreases depth,
{
    if depth == 0 {
        Err(ReflectError::NameResolutionFailure)
    } else {
        match own_name_spec(m, names, addr) {
            Err(e) => Err(e),
            Ok(n) => match outer_spec(m, addr) {
                Err(e) => Err(e),
                Ok(o) => if o == 0 {
                    Ok(n.push(SEPARATOR))
                } else {
                    match outer_chain_spec(m, names, o as int, (depth - 1) as nat) {
                        Err(e) => Err(e),
                        Ok(rest) => Ok(n.push(SEPARATOR) + rest),
                    }
                },
            },
        }
    }
}

/// The fully qualified name of the record at `addr`: its outer chain, then
/// its own name.
pub open spec fn qualified_name_spec<M: MemoryAccessor>(m: &M, names: int, addr: int) -> Result<Seq<u8>, ReflectError> {
    match own_name_spec(m, names, addr) {
        Err(e) => Err(e),
        Ok(n) => match outer_spec(m, addr) {
            Err(e) => Err(e),
            Ok(o) => if o == 0 {
                Ok(n)
            } else {
                match outer_chain_spec(m, names, o as int, MAX_OUTER_DEPTH as nat) {
                    Err(e) => Err(e),
                    Ok(p) => Ok(p + n),
                }
            },
        },
    }
}

/// The class name of the record at `addr`: the qualified name of its class
/// record, or none where the class pointer is null.
pub open spec fn class_name_spec<M: MemoryAccessor>(m: &M, names: int, addr: int) -> Result<Option<Seq<u8>>, ReflectError> {
    match read_u64_spec(m, addr + CLASS_OFFSET) {
        None => Err(ReflectError::AccessFault),
        Some(c) => if c == 0 {
            Ok(None)
        } else {
            match qualified_name_spec(m, names, c as int) {
                Err(e) => Err(e),
                Ok(s) => Ok(Some(s)),
            }
        },
    }
}

/// The object record at `addr` resolved: none for a null address; the class
/// name only when `dont_recurse` is false.
pub open spec fn resolve_object_spec<M: MemoryAccessor>(m: &M, names: int, addr: int, dont_recurse: bool) -> Result<Option<ResolvedView>, ReflectError> {
    if addr == 0 {
        Ok(None)
    } else {
        let class = if dont_recurse { Ok(None) } else { class_name_spec(m, names, addr) };
        match class {
            Err(e) => Err(e),
            Ok(c) => match qualified_name_spec(m, names, addr) {
                Err(e) => Err(e),
                Ok(n) => Ok(Some(ResolvedView { address: addr as usize, name: n, class_name: c })),
            },
        }
    }
}

fn fault_of(_fault: AccessFault) -> (r: ReflectError)
    ensures
        r == ReflectError::AccessFault,
{
    ReflectError::AccessFault
}

/// The address of slot `idx` of a table.
fn slot_address(table: usize, idx: usize) -> (r: Result<usize, ReflectError>)
    ensures
        match r {
            Ok(a) => a == table + SLOT_STRIDE * idx,
            Err(e) => e == ReflectError::AccessFault && table + SLOT_STRIDE * idx > usize::MAX,
        },
{
    if idx > (usize::MAX - table) / SLOT_STRIDE {
        return Err(ReflectError::AccessFault);
    }
    Ok(table + SLOT_STRIDE * idx)
}

/// Reads the pointer in slot `idx` of a table.
pub fn read_slot<M: MemoryAccessor>(m: &M, table: usize, idx: usize) -> (r: Result<u64, ReflectError>)
    ensures
        r == slot_spec(m, table as int, idx as int),
{
    let a = slot_address(table, idx);
    match a {
        Err(e) => {
            Err(e)
        },
        Ok(a) => match read_u64(m, a) {
            Ok(p) => Ok(p),
            Err(e) => Err(fault_of(e)),
        },
    }
}

/// Appends the text at `addr` (see `cstr_spec`) to `out`.
fn read_cstr_into<M: MemoryAccessor>(m: &M, addr: usize, fuel: usize, out: &mut Vec<u8>) -> (r: Result<(), AccessFault>)
    ensures
        match cstr_spec(m, addr as int, fuel as nat) {
            Some(s) => r is Ok && final(out)@ == old(out)@ + s,
            None => r is Err,
        },
    decreases fuel,
{
    if fuel == 0 {
        assert(out@ =~= old(out)@ + Seq::<u8>::empty());
        return Ok(());
    }
    let b = m.read_byte(addr)?;
    if b == 0 {
        assert(out@ =~= old(out)@ + Seq::<u8>::empty());
        return Ok(());
    }
    out.push(b);
    if addr == usize::MAX {
        if fuel == 1 {
            proof {
                assert(cstr_spec(m, addr + 1, 0) == Some(Seq::<u8>::empty()));
                assert(out@ =~= old(out)@ + (seq![b] + Seq::<u8>::empty()));
            }
            return Ok(());
        }
        proof {
            assert(mem_byte(m, addr + 1) is None);
        }
        return Err(AccessFault);
    }
    let ghost mid = out@;
    let res = read_cstr_into(m, addr + 1, fuel - 1, out);
    proof {
        if let Some(s) = cstr_spec(m, addr + 1, (fuel - 1) as nat) {
            assert(out@ =~= old(out)@ + (seq![b] + s));
        }
    }
    res
}

/// Resolves slot `idx` of the name table to its text: none for an empty
/// slot, otherwise the bytes before the first zero, at most 64 of them.
pub fn get_fname_from_gnames_at_idx<M: MemoryAccessor>(m: &M, gnames: usize, idx: usize) -> (r: Result<Option<Vec<u8>>, ReflectError>)
    ensures
        match resolve_name_spec(m, gnames as int, idx as int) {
            Ok(o) => r matches Ok(v) && opt_view(v) == o,
            Err(e) => r == Err::<Option<Vec<u8>>, ReflectError>(e),
        },
{
    let p = read_slot(m, gnames, idx)?;
    if p == 0 {
        return Ok(None);
    }
    if p > (usize::MAX - NAME_TEXT_OFFSET) as u64 {
        return Err(ReflectError::AccessFault);
    }
    let mut out: Vec<u8> = Vec::new();
    match read_cstr_into(m, p as usize + NAME_TEXT_OFFSET, NAME_MAX_LEN, &mut out) {
        Ok(()) => {
            assert(out@ =~= Seq::<u8>::empty() + out@);
            Ok(Some(out))
        },
        Err(_) => Err(ReflectError::AccessFault),
    }
}

/// The address of the field at `offset` inside the record at `base`.
fn field_address(base: u64, offset: usize) -> (r: Result<usize, ReflectError>)
    ensures
        match r {
            Ok(a) => a == base + offset,
            Err(e) => e == ReflectError::AccessFault && base + offset > usize::MAX,
        },
{
    if base > (usize::MAX - offset) as u64 {
        return Err(ReflectError::AccessFault);
    }
    Ok(base as usize + offset)
}

/// Reads the record's own name.
fn read_own_name<M: MemoryAccessor>(m: &M, names: usize, addr: u64) -> (r: Result<Vec<u8>, ReflectError>)
    ensures
        match own_name_spec(m, names as int, addr as int) {
            Ok(s) => r matches Ok(v) && v@ == s,
            Err(e) => r == Err::<Vec<u8>, ReflectError>(e),
        },
{
    let a = field_address(addr, NAME_INDEX_OFFSET)?;
    let idx = match read_u32(m, a) {
        Ok(i) => i,
        Err(e) => {
            return Err(fault_of(e));
        },
    };
    match get_fname_from_gnames_at_idx(m, names, idx as usize)? {
        Some(v) => Ok(v),
        None => Err(ReflectError::NameResolutionFailure),
    }
}

/// Reads the record's outer pointer.
fn read_outer<M: MemoryAccessor>(m: &M, addr: u64) -> (r: Result<u64, ReflectError>)
    ensures
        r == outer_spec(m, addr as int),
{
    let a = field_address(addr, OUTER_OFFSET)?;
    match read_u64(m, a) {
        Ok(o) => Ok(o),
        Err(e) => Err(fault_of(e)),
    }
}

/// Appends the outer chain starting at `addr` (see `outer_chain_spec`) to `out`.
fn outer_chain_into<M: MemoryAccessor>(m: &M, names: usize, addr: u64, depth: usize, out: &mut Vec<u8>) -> (r: Result<(), ReflectError>)
    ensures
        match outer_chain_spec(m, names as int, addr as int, depth as nat) {
            Ok(s) => r is Ok && final(out)@ == old(out)@ + s,
            Err(e) => r == Err::<(), ReflectError>(e),
        },
    decreases depth,
{
    if depth == 0 {
        return Err(ReflectError::NameResolutionFailure);
    }
    let mut n = read_own_name(m, names, addr)?;
    let o = read_outer(m, addr)?;
    n.push(SEPARATOR);
    let ghost ns = n@;
    out.append(&mut n);
    if o == 0 {
        return Ok(());
    }
    let ghost mid = out@;
    let r = outer_chain_into(m, names, o, depth - 1, out);
    proof {
        if let Ok(rest) = outer_chain_spec(m, names as int, o as int, (depth - 1) as nat) {
            assert(out@ =~= old(out)@ + (ns + rest));
        }
    }
    r
}

/// The names along the outer chain starting at `uobject_address`, each
/// followed by `.`, innermost first.
pub fn get_outer_uobject_name<M: MemoryAccessor>(m: &M, gnames: usize, uobject_address: usize) -> (r: Result<Vec<u8>, ReflectError>)
    ensures
        match outer_chain_spec(m, gnames as int, uobject_address as int, MAX_OUTER_DEPTH as nat) {
            Ok(s) => r matches Ok(v) && v@ == s,
            Err(e) => r == Err::<Vec<u8>, ReflectError>(e),
        },
{
    let mut out: Vec<u8> = Vec::new();
    outer_chain_into(m, gnames, uobject_address as u64, MAX_OUTER_DEPTH, &mut out)?;
    assert(out@ =~= Seq::<u8>::empty() + out@);
    Ok(out)
}

/// The fully qualified name of the record at `addr`.
fn qualified_name<M: MemoryAccessor>(m: &M, names: usize, addr: u64) -> (r: Result<Vec<u8>, ReflectError>)
    ensures
        match qualified_name_spec(m, names as int, addr as int) {
            Ok(s) => r matches Ok(v) && v@ == s,
            Err(e) => r == Err::<Vec<u8>, ReflectError>(e),
        },
{
    let mut n = read_own_name(m, names, addr)?;
    let o = read_outer(m, addr)?;
    if o == 0 {
        return Ok(n);
    }
    let mut out: Vec<u8> = Vec::new();
    outer_chain_into(m, names, o, MAX_OUTER_DEPTH, &mut out)?;
    out.append(&mut n);
    proof {
        if let Ok(p) = outer_chain_spec(m, names as int, o as int, MAX_OUTER_DEPTH as nat) {
            assert(Seq::<u8>::empty() + p =~= p);
        }
    }
    Ok(out)
}

/// The class name of the record at `addr`.
fn class_name_of<M: MemoryAccessor>(m: &M, names: usize, addr: u64) -> (r: Result<Option<Vec<u8>>, ReflectError>)
    ensures
        match class_name_spec(m, names as int, addr as int) {
            Ok(o) => r matches Ok(v) && opt_view(v) == o,
            Err(e) => r == Err::<Option<Vec<u8>>, ReflectError>(e),
        },
{
    let a = field_address(addr, CLASS_OFFSET)?;
    let c = match read_u64(m, a) {
        Ok(c) => c,
        Err(e) => {
            return Err(fault_of(e));
        },
    };
    if c == 0 {
        return Ok(None);
    }
    let n = qualified_name(m, names, c)?;
    Ok(Some(n))
}

pub open spec fn opt_object_view(o: Option<UObject>) -> Option<ResolvedView> {
    match o {
        Some(v) => Some(v@),
        None => None,
    }
}

/// Resolves the record at `addr`.
fn resolve_at<M: MemoryAccessor>(m: &M, names: usize, addr: u64, dont_recurse: bool) -> (r: Result<Option<UObject>, ReflectError>)
    ensures
        match resolve_object_spec(m, names as int, addr as int, dont_recurse) {
            Ok(o) => r matches Ok(v) && opt_object_view(v) == o,
            Err(e) => r == Err::<Option<UObject>, ReflectError>(e),
        },
{
    if addr == 0 {
        return Ok(None);
    }
    let class_name = if dont_recurse {
        None
    } else {
        class_name_of(m, names, addr)?
    };
    let name = qualified_name(m, names, addr)?;
    Ok(Some(UObject { address: addr as usize, name, class_name }))
}

/// Resolves the object record at `uobject_address`: none for a null address;
/// otherwise its qualified name and, unless `dont_recurse`, the qualified name
/// of its class record (whose own class is never looked at).
pub fn get_uobject_from_address<M: MemoryAccessor>(m: &M, gnames: usize, uobject_address: usize, dont_recurse: bool) -> (r: Result<Option<UObject>, ReflectError>)
    ensures
        match resolve_object_spec(m, gnames as int, uobject_address as int, dont_recurse) {
            Ok(o) => r matches Ok(v) && opt_object_view(v) == o,
            Err(e) => r == Err::<Option<UObject>, ReflectError>(e),
        },
{
    resolve_at(m, gnames, uobject_address as u64, dont_recurse)
}

/// What slot `idx` of the object table resolves to, class name included.
pub open spec fn object_slot_spec<M: MemoryAccessor>(m: &M, names: int, objects: int, idx: int) -> Result<Option<ResolvedView>, ReflectError> {
    match slot_spec(m, objects, idx) {
        Err(e) => Err(e),
        Ok(p) => resolve_object_spec(m, names, p as int, false),
    }
}

/// Resolves the record in slot `idx` of the object table.
pub fn get_uobject_from_gobjobjects_at_idx<M: MemoryAccessor>(m: &M, gnames: usize, idx: usize, gobjects: usize) -> (r: Result<Option<UObject>, ReflectError>)
    ensures
        match object_slot_spec(m, gnames as int, gobjects as int, idx as int) {
            Ok(o) => r matches Ok(v) && opt_object_view(v) == o,
            Err(e) => r == Err::<Option<UObject>, ReflectError>(e),
        },
{
    let p = read_slot(m, gobjects, idx)?;
    resolve_at(m, gnames, p, false)
}

/// Prepends `acc` to a successful walk.
pub open spec fn prepend<T>(acc: Seq<T>, r: Result<Seq<T>, ReflectError>) -> Result<Seq<T>, ReflectError> {
    match r {
        Ok(s) => Ok(acc + s),
        Err(e) => Err(e),
    }
}

/// Enumeration of a sparse table from index `i` on, after a run of `run`
/// consecutive empty slots: `step(i)` is what slot `i` holds (none for an
/// empty slot). The walk ends once `threshold` empty slots have come in a row;
/// a failing slot ends it with that failure.
pub open spec fn table_walk<T>(step: spec_fn(int) -> Result<Option<T>, ReflectError>, i: int, run: int, threshold: int) -> Result<Seq<T>, ReflectError>
    decreases usize::MAX - i,
{
    if run >= threshold {
        Ok(Seq::empty())
    } else if i < 0 || i >= usize::MAX {
        Err(ReflectError::AccessFault)
    } else {
        match step(i) {
            Err(e) => Err(e),
            Ok(None) => table_walk(step, i + 1, run + 1, threshold),
            Ok(Some(x)) => prepend(seq![x], table_walk(step, i + 1, 0, threshold)),
        }
    }
}

/// What each slot of the name table holds, with its index.
pub open spec fn name_steps<M: MemoryAccessor>(m: &M, names: int) -> spec_fn(int) -> Result<Option<(usize, Seq<u8>)>, ReflectError> {
    |i: int|
        match resolve_name_spec(m, names, i) {
            Err(e) => Err(e),
            Ok(None) => Ok(None),
            Ok(Some(s)) => Ok(Some((i as usize, s))),
        }
}

/// What each slot of the object table resolves to.
pub open spec fn object_steps<M: MemoryAccessor>(m: &M, names: int, objects: int) -> spec_fn(int) -> Result<Option<ResolvedView>, ReflectError> {
    |i: int| object_slot_spec(m, names, objects, i)
}

/// Lists the entries of the name table, in index order, until
/// `NAME_RUN_THRESHOLD` empty slots have come in a row.
pub fn dump_names<M: MemoryAccessor>(m: &M, gnames: usize) -> (r: Result<Vec<NameEntry>, ReflectError>)
    ensures
        match table_walk(name_steps(m, gnames as int), 0, 0, NAME_RUN_THRESHOLD as int) {
            Ok(s) => r matches Ok(v) && names_view(v@) == s,
            Err(e) => r == Err::<Vec<NameEntry>, ReflectError>(e),
        },
{
    let ghost step = name_steps(m, gnames as int);
    let ghost th = NAME_RUN_THRESHOLD as int;
    let mut out: Vec<NameEntry> = Vec::new();
    let mut invalid_count: usize = 0;
    let mut i: usize = 0;
    assert(names_view(out@) =~= Seq::<(usize, Seq<u8>)>::empty());
    loop
        invariant
            invalid_count <= NAME_RUN_THRESHOLD,
            step == name_steps(m, gnames as int),
            th == NAME_RUN_THRESHOLD as int,
            table_walk(step, 0, 0, th) == prepend(names_view(out@), table_walk(step, i as int, invalid_count as int, th)),
        decreases usize::MAX - i,
    {
        if invalid_count >= NAME_RUN_THRESHOLD {
            assert(names_view(out@) + Seq::<(usize, Seq<u8>)>::empty() =~= names_view(out@));
            return Ok(out);
        }
        if i == usize::MAX {
            return Err(ReflectError::AccessFault);
        }
        let maybe_name = get_fname_from_gnames_at_idx(m, gnames, i)?;
        match maybe_name {
            Some(name) => {
                let ghost before = names_view(out@);
                let ghost e = (i, name@);
                out.push(NameEntry { index: i, name });
                proof {
                    assert(names_view(out@) =~= before.push(e));
                    assert(before.push(e) =~= before + seq![e]);
                    let w = table_walk(step, i + 1, 0, th);
                    if let Ok(rest) = w {
                        assert(before + (seq![e] + rest) =~= before.push(e) + rest);
                    }
                }
                invalid_count = 0;
            },
            None => {
                invalid_count = invalid_count + 1;
            },
        }
        i = i + 1;
    }
}

/// Resolves every live slot of the object table, in index order, until
/// `OBJECT_RUN_THRESHOLD` empty slots have come in a row.
pub fn parse_uobjects<M: MemoryAccessor>(m: &M, gnames: usize, gobjects: usize) -> (r: Result<Vec<UObject>, ReflectError>)
    ensures
        match table_walk(object_steps(m, gnames as int, gobjects as int), 0, 0, OBJECT_RUN_THRESHOLD as int) {
            Ok(s) => r matches Ok(v) && objects_view(v@) == s,
            Err(e) => r == Err::<Vec<UObject>, ReflectError>(e),
        },
{
    let ghost step = object_steps(m, gnames as int, gobjects as int);
    let ghost th = OBJECT_RUN_THRESHOLD as int;
    let mut out: Vec<UObject> = Vec::new();
    let mut invalid_count: usize = 0;
    let mut i: usize = 0;
    assert(objects_view(out@) =~= Seq::<ResolvedView>::empty());
    loop
        invariant
            invalid_count <= OBJECT_RUN_THRESHOLD,
            step == object_steps(m, gnames as int, gobjects as int),
            th == OBJECT_RUN_THRESHOLD as int,
            table_walk(step, 0, 0, th) == prepend(objects_view(out@), table_walk(step, i as int, invalid_count as int, th)),
        decreases usize::MAX - i,
    {
        if invalid_count >= OBJECT_RUN_THRESHOLD {
            assert(objects_view(out@) + Seq::<ResolvedView>::empty() =~= objects_view(out@));
            return Ok(out);
        }
        if i == usize::MAX {
            return Err(ReflectError::AccessFault);
        }
        let maybe_object = get_uobject_from_gobjobjects_at_idx(m, gnames, i, gobjects)?;
        match maybe_object {
            Some(object) => {
                let ghost before = objects_view(out@);
                let ghost e = object@;
                out.push(object);
                proof {
                    assert(objects_view(out@) =~= before.push(e));
                    assert(before.push(e) =~= before + seq![e]);
                    let w = table_walk(step, i + 1, 0, th);
                    if let Ok(rest) = w {
                        assert(before + (seq![e] + rest) =~= before.push(e) + rest);
                    }
                }
                invalid_count = 0;
            },
            None => {
                invalid_count = invalid_count + 1;
            },
        }
        i = i + 1;
    }
}

/// Empty name slots resolve to no name.
pub proof fn lemma_empty_name_slot<M: MemoryAccessor>(m: &M, names: int, idx: int)
    requires
        slot_spec(m, names, idx) == Ok::<u64, ReflectError>(0),
    ensures
        resolve_name_spec(m, names, idx) == Ok::<Option<Seq<u8>>, ReflectError>(None),
{
}

proof fn lemma_empty_run_to_threshold<T>(step: spec_fn(int) -> Result<Option<T>, ReflectError>, i: int, threshold: int)
    requires
        0 <= i <= threshold < usize::MAX,
        forall|j: int| i <= j < threshold ==> #[trigger] step(j) == Ok::<Option<T>, ReflectError>(None),
    ensures
        table_walk(step, i, i, threshold) == Ok::<Seq<T>, ReflectError>(Seq::empty()),
    decreases threshold - i,
{
    if i < threshold {
        lemma_empty_run_to_threshold(step, i + 1, threshold);
    }
}

proof fn lemma_empty_run_then_entry<T>(step: spec_fn(int) -> Result<Option<T>, ReflectError>, i: int, threshold: int, x: T)
    requires
        0 <= i < threshold < usize::MAX,
        forall|j: int| i <= j < threshold - 1 ==> #[trigger] step(j) == Ok::<Option<T>, ReflectError>(None),
        step(threshold - 1) == Ok::<Option<T>, ReflectError>(Some(x)),
    ensures
        table_walk(step, i, i, threshold) == prepend(seq![x], table_walk(step, threshold, 0, threshold)),
    decreases threshold - i,
{
    if i < threshold - 1 {
        lemma_empty_run_then_entry(step, i + 1, threshold, x);
    }
}

/// A table whose first `threshold` slots are all empty enumerates to nothing,
/// whatever comes after them.
pub proof fn lemma_walk_ends_after_empty_run<T>(step: spec_fn(int) -> Result<Option<T>, ReflectError>, threshold: int)
    requires
        0 < threshold < usize::MAX,
        forall|j: int| 0 <= j < threshold ==> #[trigger] step(j) == Ok::<Option<T>, ReflectError>(None),
    ensures
        table_walk(step, 0, 0, threshold) == Ok::<Seq<T>, ReflectError>(Seq::empty()),
{
    lemma_empty_run_to_threshold(step, 0, threshold);
}

/// A run of `threshold - 1` empty slots does not end the enumeration: the
/// entry right after it comes first in the result.
pub proof fn lemma_walk_survives_short_run<T>(step: spec_fn(int) -> Result<Option<T>, ReflectError>, threshold: int, x: T)
    requires
        0 < threshold < usize::MAX,
        forall|j: int| 0 <= j < threshold - 1 ==> #[trigger] step(j) == Ok::<Option<T>, ReflectError>(None),
        step(threshold - 1) == Ok::<Option<T>, ReflectError>(Some(x)),
    ensures
        table_walk(step, 0, 0, threshold) == prepend(seq![x], table_walk(step, threshold, 0, threshold)),
{
    lemma_empty_run_then_entry(step, 0, threshold, x);
}

/// An object table whose first `OBJECT_RUN_THRESHOLD` slots are null yields
/// an empty catalog, even when live records follow.
pub proof fn lemma_catalog_empty_after_null_run<M: MemoryAccessor>(m: &M, gnames: int, gobjects: int)
    requires
        forall|j: int| 0 <= j < OBJECT_RUN_THRESHOLD ==> #[trigger] slot_spec(m, gobjects, j) == Ok::<u64, ReflectError>(0),
    ensures
        table_walk(object_steps(m, gnames, gobjects), 0, 0, OBJECT_RUN_THRESHOLD as int) == Ok::<Seq<ResolvedView>, ReflectError>(Seq::empty()),
{
    let step = object_steps(m, gnames, gobjects);
    assert forall|j: int| 0 <= j < OBJECT_RUN_THRESHOLD implies #[trigger] step(j) == Ok::<Option<ResolvedView>, ReflectError>(None) by {
        assert(slot_spec(m, gobjects, j) == Ok::<u64, ReflectError>(0));
    }
    lemma_walk_ends_after_empty_run(step, OBJECT_RUN_THRESHOLD as int);
}

/// An object table whose first `OBJECT_RUN_THRESHOLD - 1` slots are null and
/// whose next slot resolves to `x` has `x` first in its catalog. The walk
/// still fails as a whole where a later read faults.
pub proof fn lemma_catalog_keeps_entry_after_null_run<M: MemoryAccessor>(m: &M, gnames: int, gobjects: int, x: ResolvedView)
    requires
        forall|j: int| 0 <= j < OBJECT_RUN_THRESHOLD - 1 ==> #[trigger] slot_spec(m, gobjects, j) == Ok::<u64, ReflectError>(0),
        object_slot_spec(m, gnames, gobjects, OBJECT_RUN_THRESHOLD - 1) == Ok::<Option<ResolvedView>, ReflectError>(Some(x)),
    ensures
        table_walk(object_steps(m, gnames, gobjects), 0, 0, OBJECT_RUN_THRESHOLD as int) == prepend(
            seq![x],
            table_walk(object_steps(m, gnames, gobjects), OBJECT_RUN_THRESHOLD as int, 0, OBJECT_RUN_THRESHOLD as int),
        ),
        table_walk(object_steps(m, gnames, gobjects), 0, 0, OBJECT_RUN_THRESHOLD as int) matches Ok(s) ==> s.len() >= 1
            && s[0] == x,
{
    let step = object_steps(m, gnames, gobjects);
    assert forall|j: int| 0 <= j < OBJECT_RUN_THRESHOLD - 1 implies #[trigger] step(j) == Ok::<Option<ResolvedView>, ReflectError>(None) by {
        assert(slot_spec(m, gobjects, j) == Ok::<u64, ReflectError>(0));
    }
    lemma_walk_survives_short_run(step, OBJECT_RUN_THRESHOLD as int, x);
}

/// A name table whose first `NAME_RUN_THRESHOLD - 1` slots are empty and
/// whose next slot holds the name `n` has that entry, with its index, first
/// in its dump. The walk still fails as a whole where a later read faults.
pub proof fn lemma_name_dump_keeps_entry_after_empty_run<M: MemoryAccessor>(m: &M, gnames: int, n: Seq<u8>)
    requires
        forall|j: int| 0 <= j < NAME_RUN_THRESHOLD - 1 ==> #[trigger] slot_spec(m, gnames, j) == Ok::<u64, ReflectError>(0),
        resolve_name_spec(m, gnames, NAME_RUN_THRESHOLD - 1) == Ok::<Option<Seq<u8>>, ReflectError>(Some(n)),
    ensures
        table_walk(name_steps(m, gnames), 0, 0, NAME_RUN_THRESHOLD as int) == prepend(
            seq![((NAME_RUN_THRESHOLD - 1) as usize, n)],
            table_walk(name_steps(m, gnames), NAME_RUN_THRESHOLD as int, 0, NAME_RUN_THRESHOLD as int),
        ),
        table_walk(name_steps(m, gnames), 0, 0, NAME_RUN_THRESHOLD as int) matches Ok(s) ==> s.len() >= 1
            && s[0] == ((NAME_RUN_THRESHOLD - 1) as usize, n),
{
    let step = name_steps(m, gnames);
    assert forall|j: int| 0 <= j < NAME_RUN_THRESHOLD - 1 implies #[trigger] step(j) == Ok::<Option<(usize, Seq<u8>)>, ReflectError>(None) by {
        assert(slot_spec(m, gnames, j) == Ok::<u64, ReflectError>(0));
    }
    lemma_walk_survives_short_run(step, NAME_RUN_THRESHOLD as int, ((NAME_RUN_THRESHOLD - 1) as usize, n));
}

} // verus!
