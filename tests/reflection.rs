use reborn::catalog::{
    get_camera, get_input, get_player_controller_address, get_uobject_from_vec,
    get_uobject_from_vec_by_address,
};
use reborn::memory::{read_u32, read_u64, MemoryAccessor, MemoryImage};
use reborn::reflect::{
    dump_names, get_fname_from_gnames_at_idx, get_outer_uobject_name, get_uobject_from_address,
    get_uobject_from_gobjobjects_at_idx, parse_uobjects, ReflectError, UObject,
};

const NAMES: usize = 0x10_0000;
const OBJECTS: usize = 0x20_0000;
const NAME_ENTRIES: usize = 0x40_0000;
const RECORDS: usize = 0x80_0000;

struct Rec {
    name: u32,
    outer: Option<usize>,
    class: Option<usize>,
}

/// A synthetic pair of tables: name slots and object slots, `None` for an
/// empty slot.
struct Mock {
    names: Vec<Option<Vec<u8>>>,
    objects: Vec<Option<Rec>>,
}

impl Mock {
    fn new() -> Mock {
        Mock { names: vec![None], objects: Vec::new() }
    }

    fn name(&mut self, s: &str) -> u32 {
        for (i, n) in self.names.iter().enumerate() {
            if n.as_deref() == Some(s.as_bytes()) {
                return i as u32;
            }
        }
        self.names.push(Some(s.as_bytes().to_vec()));
        (self.names.len() - 1) as u32
    }

    fn obj(&mut self, name: &str, outer: Option<usize>, class: Option<usize>) -> usize {
        let name = self.name(name);
        self.objects.push(Some(Rec { name, outer, class }));
        self.objects.len() - 1
    }

    fn empty_object_slots(&mut self, n: usize) {
        for _ in 0..n {
            self.objects.push(None);
        }
    }

    fn build(&self) -> MemoryImage {
        let mut m = MemoryImage::new();
        let mut table = Vec::new();
        let mut entries = vec![0u8; self.names.len() * 0x100];
        for (i, n) in self.names.iter().enumerate() {
            match n {
                Some(text) => {
                    table.extend_from_slice(&((NAME_ENTRIES + i * 0x100) as u64).to_le_bytes());
                    let at = i * 0x100 + 0x18;
                    entries[at..at + text.len()].copy_from_slice(text);
                }
                None => table.extend_from_slice(&0u64.to_le_bytes()),
            }
        }
        table.extend(vec![0u8; 8 * 10_001]);
        m.map_region(NAMES, table);
        m.map_region(NAME_ENTRIES, entries);
        let mut table = Vec::new();
        let mut records = vec![0u8; self.objects.len().max(1) * 0x100];
        for (i, o) in self.objects.iter().enumerate() {
            match o {
                Some(r) => {
                    table.extend_from_slice(&(record_addr(i) as u64).to_le_bytes());
                    let at = i * 0x100;
                    let outer = r.outer.map(record_addr).unwrap_or(0) as u64;
                    let class = r.class.map(record_addr).unwrap_or(0) as u64;
                    records[at + 0x38..at + 0x40].copy_from_slice(&outer.to_le_bytes());
                    records[at + 0x40..at + 0x44].copy_from_slice(&r.name.to_le_bytes());
                    records[at + 0x48..at + 0x50].copy_from_slice(&class.to_le_bytes());
                }
                None => table.extend_from_slice(&0u64.to_le_bytes()),
            }
        }
        table.extend(vec![0u8; 8 * 101]);
        m.map_region(OBJECTS, table);
        m.map_region(RECORDS, records);
        m
    }
}

fn record_addr(i: usize) -> usize {
    RECORDS + i * 0x100
}

fn bytes(s: &str) -> Vec<u8> {
    s.as_bytes().to_vec()
}

fn uobj(address: usize, name: &str, class: Option<&str>) -> UObject {
    UObject { address, name: bytes(name), class_name: class.map(bytes) }
}

#[test]
fn empty_name_slots_resolve_to_none() {
    let mut mock = Mock::new();
    mock.names.push(None);
    mock.name("Core");
    mock.names.push(None);
    let m = mock.build();
    for i in [0usize, 1, 3, 50, 9000] {
        assert_eq!(get_fname_from_gnames_at_idx(&m, NAMES, i), Ok(None));
    }
    assert_eq!(get_fname_from_gnames_at_idx(&m, NAMES, 2), Ok(Some(bytes("Core"))));
}

#[test]
fn long_name_is_cut_at_64_bytes() {
    let mut mock = Mock::new();
    let long = "A".repeat(100);
    mock.name(&long);
    let m = mock.build();
    assert_eq!(get_fname_from_gnames_at_idx(&m, NAMES, 1), Ok(Some(vec![b'A'; 64])));
}

#[test]
fn name_read_from_unmapped_table_faults() {
    let m = MemoryImage::new();
    assert_eq!(get_fname_from_gnames_at_idx(&m, NAMES, 0), Err(ReflectError::AccessFault));
    assert_eq!(dump_names(&m, NAMES).map(|v| v.len()), Err(ReflectError::AccessFault));
}

#[test]
fn memory_reads_little_endian_and_fault_outside_regions() {
    let mut m = MemoryImage::new();
    m.map_region(0x100, vec![0x78, 0x56, 0x34, 0x12, 0xef, 0xcd, 0xab, 0x90]);
    m.map_region(0x100, vec![0xff; 16]);
    assert_eq!(read_u32(&m, 0x100), Ok(0x1234_5678));
    assert_eq!(read_u64(&m, 0x100), Ok(0x90ab_cdef_1234_5678));
    assert_eq!(m.read_byte(0x108), Ok(0xff));
    assert!(read_u64(&m, 0x10c).is_err());
    assert!(read_u32(&m, usize::MAX - 1).is_err());
}

#[test]
fn qualified_name_walks_the_outer_chain() {
    let mut mock = Mock::new();
    let baz = mock.obj("Baz", None, None);
    let bar = mock.obj("Bar", Some(baz), None);
    let foo = mock.obj("Foo", Some(bar), None);
    let m = mock.build();
    let o = get_uobject_from_address(&m, NAMES, record_addr(foo), true).unwrap().unwrap();
    assert_eq!(o.name, bytes("Bar.Baz.Foo"));
    assert_eq!(o.address, record_addr(foo));
    assert_eq!(o.class_name, None);
    assert_eq!(get_outer_uobject_name(&m, NAMES, record_addr(bar)), Ok(bytes("Bar.Baz.")));
}

#[test]
fn null_address_resolves_to_none() {
    let m = Mock::new().build();
    assert!(matches!(get_uobject_from_address(&m, NAMES, 0, false), Ok(None)));
}

#[test]
fn class_name_is_the_class_records_qualified_name() {
    let mut mock = Mock::new();
    let core = mock.obj("Core", None, None);
    let class = mock.obj("Class", Some(core), None);
    let function = mock.obj("Function", Some(core), Some(class));
    let engine = mock.obj("Engine", None, None);
    let f = mock.obj("Tick", Some(engine), Some(function));
    let m = mock.build();
    let o = get_uobject_from_address(&m, NAMES, record_addr(f), false).unwrap().unwrap();
    assert_eq!(o.name, bytes("Engine.Tick"));
    assert_eq!(o.class_name, Some(bytes("Core.Function")));
    let o = get_uobject_from_gobjobjects_at_idx(&m, NAMES, f, OBJECTS).unwrap().unwrap();
    assert_eq!(o.class_name, Some(bytes("Core.Function")));
}

#[test]
fn cyclic_outer_chain_is_a_name_failure() {
    let mut mock = Mock::new();
    let a = mock.obj("A", Some(1), None);
    let _b = mock.obj("B", Some(a), None);
    let m = mock.build();
    assert!(matches!(
        get_uobject_from_address(&m, NAMES, record_addr(a), true),
        Err(ReflectError::NameResolutionFailure)
    ));
}

#[test]
fn missing_own_name_is_a_name_failure() {
    let mut mock = Mock::new();
    mock.objects.push(Some(Rec { name: 0, outer: None, class: None }));
    let m = mock.build();
    assert!(matches!(
        get_uobject_from_address(&m, NAMES, record_addr(0), true),
        Err(ReflectError::NameResolutionFailure)
    ));
}

#[test]
fn entry_after_short_null_run_is_kept() {
    let mut mock = Mock::new();
    mock.empty_object_slots(99);
    let x = mock.obj("Lonely", None, None);
    let m = mock.build();
    let cat = parse_uobjects(&m, NAMES, OBJECTS).unwrap();
    assert_eq!(cat.len(), 1);
    assert_eq!(cat[0].address, record_addr(x));
    assert_eq!(cat[0].name, bytes("Lonely"));
}

#[test]
fn full_null_run_ends_the_catalog() {
    let mut mock = Mock::new();
    mock.empty_object_slots(100);
    mock.obj("Hidden", None, None);
    let m = mock.build();
    let cat = parse_uobjects(&m, NAMES, OBJECTS).unwrap();
    assert_eq!(cat.len(), 0);
}

#[test]
fn name_dump_lists_entries_with_indices() {
    let mut mock = Mock::new();
    mock.name("Core");
    for _ in 0..9_999 {
        mock.names.push(None);
    }
    mock.name("Far");
    for _ in 0..10_000 {
        mock.names.push(None);
    }
    mock.name("Beyond");
    let m = mock.build();
    let names = dump_names(&m, NAMES).unwrap();
    let got: Vec<(usize, Vec<u8>)> = names.into_iter().map(|e| (e.index, e.name)).collect();
    assert_eq!(got, vec![(1, bytes("Core")), (10_001, bytes("Far"))]);
}

#[test]
fn class_filter_rejects_matching_name_with_other_class() {
    let cat = vec![
        uobj(0x10, "Engine.Thing", Some("Core.Property")),
        uobj(0x20, "Engine.Other", Some("Core.Function")),
    ];
    assert_eq!(get_uobject_from_vec(b"Engine.Thing", None, &cat).map(|o| o.address), Some(0x10));
    assert!(get_uobject_from_vec(b"Engine.Thing", Some(b"Core.Function"), &cat).is_none());
    assert_eq!(
        get_uobject_from_vec(b"Engine.Other", Some(b"Core.Function"), &cat).map(|o| o.address),
        Some(0x20)
    );
}

#[test]
fn class_filter_skips_objects_without_class() {
    let cat = vec![uobj(0x10, "Engine.Thing", None), uobj(0x20, "Engine.Thing", Some("Core.Function"))];
    assert_eq!(get_uobject_from_vec(b"Engine.Thing", None, &cat).map(|o| o.address), Some(0x10));
    assert_eq!(
        get_uobject_from_vec(b"Engine.Thing", Some(b"Core.Function"), &cat).map(|o| o.address),
        Some(0x20)
    );
}

#[test]
fn lookup_by_address_takes_the_first_match() {
    let cat = vec![uobj(0x10, "A", None), uobj(0x20, "B", None), uobj(0x20, "C", None)];
    assert_eq!(get_uobject_from_vec_by_address(0x20, &cat).map(|o| o.name.clone()), Some(bytes("B")));
    assert!(get_uobject_from_vec_by_address(0x30, &cat).is_none());
    assert!(get_uobject_from_vec_by_address(0x10, &Vec::new()).is_none());
}

fn world_catalog() -> Vec<UObject> {
    vec![
        uobj(0x1, "Default__PoplarCamera", Some("PoplarGame.PoplarCamera")),
        uobj(0x2, "PersistentLevel.TheWorld.Slums_P.PoplarCamera_0", Some("PoplarGame.PoplarCamera")),
        uobj(0x3, "PersistentLevel.TheWorld.Slums_P.PoplarCamera_1", Some("PoplarGame.PoplarCamera")),
        uobj(0x4, "PoplarPlayerController.PersistentLevel.TheWorld.Slums_P.PoplarPlayerInput", Some("PoplarGame.PoplarPlayerInput")),
        uobj(0x5, "PersistentLevel.TheWorld.Slums_P.PoplarPlayerController", None),
        uobj(0x6, "PersistentLevel.TheWorld.Slums_P.PoplarPlayerController", Some("PoplarGame.PoplarPlayerController")),
    ]
}

#[test]
fn singleton_finders_pick_the_active_world_objects() {
    let cat = world_catalog();
    assert_eq!(get_camera(&cat).map(|o| o.address), Some(0x2));
    assert_eq!(get_input(&cat).map(|o| o.address), Some(0x4));
    assert_eq!(get_player_controller_address(&cat), Some(0x6));
    let tail: Vec<UObject> = world_catalog().into_iter().skip(3).collect();
    assert!(get_camera(&tail).is_none());
    let head: Vec<UObject> = world_catalog().into_iter().take(3).collect();
    assert!(get_input(&head).is_none());
    let head: Vec<UObject> = world_catalog().into_iter().take(5).collect();
    assert_eq!(get_player_controller_address(&head), None);
}

#[test]
fn name_after_short_empty_run_is_listed() {
    let mut mock = Mock::new();
    for _ in 0..9_998 {
        mock.names.push(None);
    }
    mock.name("N");
    let m = mock.build();
    let names = dump_names(&m, NAMES).unwrap();
    assert_eq!(names.len(), 1);
    assert_eq!((names[0].index, names[0].name.clone()), (9_999, bytes("N")));
}

#[test]
fn full_empty_run_ends_the_name_dump() {
    let mut mock = Mock::new();
    for _ in 0..9_999 {
        mock.names.push(None);
    }
    mock.name("Hidden");
    let m = mock.build();
    assert_eq!(dump_names(&m, NAMES).unwrap().len(), 0);
}
