use reborn::config::{character_name_id, map_open_command, parse_bool, ConfigParseFailure};
use reborn::hooks::{HookInstallFailure, HookRegistry};
use reborn::invoke::{
    invoke, set_class_params, set_fov_params, set_sensitivity_params, set_show_subtitles_params,
    Invocation,
};
use reborn::memory::MemoryImage;
use reborn::reflect::UObject;
use reborn::reflect::parse_uobjects;
use reborn::script::{
    map_load_call, plan_level_start, set_fov, set_mouse_sensitivity, set_subtitle_state,
    switch_player_class, AttachContext, ScriptConfig, ScriptError,
};
use std::cell::RefCell;

const NAMES: usize = 0x10_0000;
const OBJECTS: usize = 0x20_0000;
const NAME_ENTRIES: usize = 0x40_0000;
const RECORDS: usize = 0x80_0000;

struct Rec {
    name: u32,
    outer: Option<usize>,
    class: Option<usize>,
}

/// A synthetic pair of tables: name slots and object slots, `None` for an
/// empty slot.
struct Mock {
    names: Vec<Option<Vec<u8>>>,
    objects: Vec<Option<Rec>>,
}

impl Mock {
    fn new() -> Mock {
        Mock { names: vec![None], objects: Vec::new() }
    }

    fn name(&mut self, s: &str) -> u32 {
        for (i, n) in self.names.iter().enumerate() {
            if n.as_deref() == Some(s.as_bytes()) {
                return i as u32;
            }
        }
        self.names.push(Some(s.as_bytes().to_vec()));
        (self.names.len() - 1) as u32
    }

    fn obj(&mut self, name: &str, outer: Option<usize>, class: Option<usize>) -> usize {
        let name = self.name(name);
        self.objects.push(Some(Rec { name, outer, class }));
        self.objects.len() - 1
    }

    fn empty_object_slots(&mut self, n: usize) {
        for _ in 0..n {
            self.objects.push(None);
        }
    }

    fn build(&self) -> MemoryImage {
        let mut m = MemoryImage::new();
        let mut table = Vec::new();
        let mut entries = vec![0u8; self.names.len() * 0x100];
        for (i, n) in self.names.iter().enumerate() {
            match n {
                Some(text) => {
                    table.extend_from_slice(&((NAME_ENTRIES + i * 0x100) as u64).to_le_bytes());
                    let at = i * 0x100 + 0x18;
                    entries[at..at + text.len()].copy_from_slice(text);
                }
                None => table.extend_from_slice(&0u64.to_le_bytes()),
            }
        }
        table.extend(vec![0u8; 8 * 10_001]);
        m.map_region(NAMES, table);
        m.map_region(NAME_ENTRIES, entries);
        let mut table = Vec::new();
        let mut records = vec![0u8; self.objects.len().max(1) * 0x100];
        for (i, o) in self.objects.iter().enumerate() {
            match o {
                Some(r) => {
                    table.extend_from_slice(&(record_addr(i) as u64).to_le_bytes());
                    let at = i * 0x100;
                    let outer = r.outer.map(record_addr).unwrap_or(0) as u64;
                    let class = r.class.map(record_addr).unwrap_or(0) as u64;
                    records[at + 0x38..at + 0x40].copy_from_slice(&outer.to_le_bytes());
                    records[at + 0x40..at + 0x44].copy_from_slice(&r.name.to_le_bytes());
                    records[at + 0x48..at + 0x50].copy_from_slice(&class.to_le_bytes());
                }
                None => table.extend_from_slice(&0u64.to_le_bytes()),
            }
        }
        table.extend(vec![0u8; 8 * 101]);
        m.map_region(OBJECTS, table);
        m.map_region(RECORDS, records);
        m
    }
}

fn record_addr(i: usize) -> usize {
    RECORDS + i * 0x100
}

fn bytes(s: &str) -> Vec<u8> {
    s.as_bytes().to_vec()
}



/// Addresses of the objects the scripted actions use.
struct Scene {
    trigger: usize,
    others: Vec<usize>,
    controller: usize,
    input: usize,
    switch: usize,
    definition: usize,
    fov: usize,
    sensitivity: usize,
    subtitles: usize,
}

fn scene() -> (Mock, Scene) {
    let mut m = Mock::new();
    let core = m.obj("Core", None, None);
    let function = m.obj("Function", Some(core), None);
    let engine = m.obj("Engine", None, None);
    let poplar = m.obj("PoplarGame", None, None);
    let game_info = m.obj("GameInfo", Some(engine), None);
    let trigger = m.obj("OnStartOnlineGameComplete", Some(game_info), Some(function));
    let tick = m.obj("Tick", Some(game_info), Some(function));
    let pc_class = m.obj("PoplarPlayerController", Some(poplar), None);
    let input_class = m.obj("PoplarPlayerInput", Some(poplar), None);
    let def_class = m.obj("PoplarPlayerNameIdentifierDefinition", Some(poplar), None);
    let switch = m.obj("SwitchPoplarPlayerClass", Some(pc_class), Some(function));
    let player_controller = m.obj("PlayerController", Some(engine), None);
    let player_input = m.obj("PlayerInput", Some(engine), None);
    let fov = m.obj("FOV", Some(player_controller), Some(function));
    let sensitivity = m.obj("SetSensitivity", Some(player_input), Some(function));
    let subtitles = m.obj("SetShowSubtitles", Some(player_controller), Some(function));
    let gd = m.obj("GD_WaterMonk", None, None);
    let definition = m.obj("NameId_WaterMonk", Some(gd), Some(def_class));
    let world = m.obj("TheWorld", None, None);
    let level = m.obj("PersistentLevel", Some(world), None);
    let controller = m.obj("PoplarPlayerController", Some(level), Some(pc_class));
    let input = m.obj("PoplarPlayerInput", Some(controller), Some(input_class));
    let s = Scene {
        trigger: record_addr(trigger),
        others: vec![record_addr(tick), record_addr(fov), record_addr(switch), record_addr(sensitivity)],
        controller: record_addr(controller),
        input: record_addr(input),
        switch: record_addr(switch),
        definition: record_addr(definition),
        fov: record_addr(fov),
        sensitivity: record_addr(sensitivity),
        subtitles: record_addr(subtitles),
    };
    (m, s)
}

fn config(character: &str) -> ScriptConfig {
    ScriptConfig {
        character: bytes(character),
        fov_bits: 90.0f32.to_bits(),
        sensitivity_x_bits: 1.5f32.to_bits(),
        sensitivity_y_bits: 2.25f32.to_bits(),
        subtitles: true,
    }
}

#[test]
fn only_the_fifth_call_triggers_the_script() {
    let (mock, s) = scene();
    let m = mock.build();
    let cfg = config("WaterMonk");
    let mut ctx = AttachContext::new(NAMES, OBJECTS);
    let mut calls = s.others.clone();
    calls.push(s.trigger);
    let mut all: Vec<Invocation> = Vec::new();
    for (k, f) in calls.iter().enumerate() {
        let plan = ctx.fake_process_event(&m, *f, &cfg).unwrap();
        if k < 4 {
            assert!(plan.is_empty());
            assert_eq!(ctx.rebuilds, 0);
            assert!(ctx.catalog.is_empty());
        }
        all.extend(plan);
    }
    assert_eq!(ctx.rebuilds, 1);
    assert_eq!(ctx.catalog.len(), 22);
    assert_eq!(all.len(), 4);
    assert_eq!((all[0].object, all[0].function), (s.controller, s.switch));
    assert_eq!(all[0].params, (s.definition as u64).to_le_bytes().to_vec());
    assert_eq!((all[1].object, all[1].function), (s.controller, s.fov));
    assert_eq!(all[1].params, 90.0f32.to_le_bytes().to_vec());
    assert_eq!((all[2].object, all[2].function), (s.input, s.sensitivity));
    let mut xy = 1.5f32.to_le_bytes().to_vec();
    xy.extend_from_slice(&2.25f32.to_le_bytes());
    assert_eq!(all[2].params, xy);
    assert_eq!((all[3].object, all[3].function), (s.controller, s.subtitles));
    assert_eq!(all[3].params, vec![1]);
}

#[test]
fn every_trigger_reruns_the_script() {
    let (mock, s) = scene();
    let m = mock.build();
    let cfg = config("WaterMonk");
    let mut ctx = AttachContext::new(NAMES, OBJECTS);
    assert_eq!(ctx.fake_process_event(&m, s.trigger, &cfg).unwrap().len(), 4);
    assert_eq!(ctx.fake_process_event(&m, s.trigger, &cfg).unwrap().len(), 4);
    assert_eq!(ctx.rebuilds, 2);
}

#[test]
fn unknown_character_is_a_config_failure() {
    let (mock, s) = scene();
    let m = mock.build();
    let mut ctx = AttachContext::new(NAMES, OBJECTS);
    let r = ctx.fake_process_event(&m, s.trigger, &config("Nobody"));
    assert!(matches!(r, Err(ScriptError::ConfigParseFailure)));
    assert_eq!(ctx.rebuilds, 1);
}

#[test]
fn missing_script_object_is_a_name_failure() {
    let (mock, s) = scene();
    let m = mock.build();
    let mut ctx = AttachContext::new(NAMES, OBJECTS);
    let r = ctx.fake_process_event(&m, s.trigger, &config("IceGolem"));
    assert!(matches!(r, Err(ScriptError::NameResolutionFailure)));
    let r = plan_level_start(&Vec::new(), &config("WaterMonk"));
    assert!(matches!(r, Err(ScriptError::NameResolutionFailure)));
}

#[test]
fn unreadable_function_is_an_access_fault() {
    let (mock, _) = scene();
    let m = mock.build();
    let mut ctx = AttachContext::new(NAMES, OBJECTS);
    let r = ctx.fake_process_event(&m, 0x7000_0000, &config("WaterMonk"));
    assert!(matches!(r, Err(ScriptError::AccessFault)));
    assert_eq!(ctx.rebuilds, 0);
}

#[test]
fn engine_exec_records_call_context() {
    let mut ctx = AttachContext::new(NAMES, OBJECTS);
    ctx.fake_engine_exec(0xabc, 0xdef);
    assert_eq!((ctx.engine_address, ctx.output_device), (0xabc, 0xdef));
    assert_eq!((ctx.gnames, ctx.gobjects, ctx.rebuilds), (NAMES, OBJECTS, 0));
}

#[test]
fn invoke_hands_over_the_exact_parameter_bytes() {
    let mut block = 0x1122_3344_5566_7788u64.to_le_bytes().to_vec();
    block.extend_from_slice(&0xa1b2_c3d4u32.to_le_bytes());
    block.push(0x7f);
    let inv = Invocation { object: 0x1000, function: 0x2000, params: block.clone() };
    let seen: RefCell<Vec<(usize, usize, Vec<u8>)>> = RefCell::new(Vec::new());
    let identity = |o: usize, f: usize, p: &Vec<u8>| {
        seen.borrow_mut().push((o, f, p.clone()));
        p.len()
    };
    assert_eq!(invoke(&identity, &inv), 13);
    assert_eq!(seen.into_inner(), vec![(0x1000, 0x2000, block)]);
}

#[test]
fn parameter_blocks_have_no_padding() {
    assert_eq!(set_class_params(0x0102_0304_0506_0708), vec![8, 7, 6, 5, 4, 3, 2, 1]);
    assert_eq!(set_fov_params(100.0f32.to_bits()), 100.0f32.to_le_bytes().to_vec());
    assert_eq!(set_sensitivity_params(0x0403_0201, 0x0807_0605), vec![1, 2, 3, 4, 5, 6, 7, 8]);
    assert_eq!(set_show_subtitles_params(true), vec![1]);
    assert_eq!(set_show_subtitles_params(false), vec![0]);
}

#[test]
fn flags_parse_exactly() {
    assert_eq!(parse_bool("true"), Ok(true));
    assert_eq!(parse_bool("false"), Ok(false));
    assert_eq!(parse_bool("True"), Err(ConfigParseFailure));
    assert_eq!(parse_bool(""), Err(ConfigParseFailure));
}

#[test]
fn character_selectors_map_to_definitions() {
    assert_eq!(character_name_id(b"WaterMonk"), Some("GD_WaterMonk.NameId_WaterMonk"));
    assert_eq!(character_name_id(b"DarkElf"), Some("gd_darkelfranger.NameId_DarkElfRanger"));
    assert_eq!(character_name_id(b"RogueSoldier"), Some("GD_RogueSoldier.NameId_RogueSoldier"));
    assert_eq!(character_name_id(b"watermonk"), None);
}

#[test]
fn map_commands_are_wide_and_terminated() {
    let expect: Vec<u16> = "open Slums_P\0".encode_utf16().collect();
    assert_eq!(map_open_command(b"Slums_P"), Some(expect));
    assert_eq!(map_open_command(b"Nowhere_P"), None);
    let cat = vec![UObject { address: 0x1000, name: bytes("A"), class_name: None }];
    let call = map_load_call(&cat, b"Caverns_P").unwrap();
    assert_eq!(call.engine, 0x1000 + 0x25ebde8);
    assert_eq!(call.command, "open Caverns_P\0".encode_utf16().collect::<Vec<u16>>());
    assert!(matches!(map_load_call(&cat, b"Nowhere_P"), Err(ScriptError::ConfigParseFailure)));
    assert!(matches!(map_load_call(&Vec::new(), b"Caverns_P"), Err(ScriptError::NameResolutionFailure)));
}

#[test]
fn hooks_are_installed_once_per_target() {
    let mut reg = HookRegistry::new();
    assert_eq!(reg.check_install(0x5000), Ok(()));
    assert_eq!(reg.record_install(0x5000, 0x6000, 0x7000), Ok(()));
    assert_eq!(reg.record_install(0x5000, 0x6100, 0x7100), Err(HookInstallFailure));
    assert_eq!(reg.check_install(0), Err(HookInstallFailure));
    assert_eq!(reg.record_install(0x5100, 0x6100, 0x7100), Ok(()));
    assert!(reg.hooks.iter().all(|h| !h.enabled));
    reg.enable_all();
    assert!(reg.hooks.iter().all(|h| h.enabled));
    assert_eq!(reg.trampoline_for(0x5000), Some(0x7000));
    assert_eq!(reg.trampoline_for(0x5100), Some(0x7100));
    assert_eq!(reg.trampoline_for(0x5200), None);
}

#[test]
fn each_setter_targets_its_object_and_function() {
    let (mock, s) = scene();
    let m = mock.build();
    let cat = parse_uobjects(&m, NAMES, OBJECTS).unwrap();
    let a = switch_player_class(&cat, "GD_WaterMonk.NameId_WaterMonk").unwrap();
    assert_eq!((a.object, a.function), (s.controller, s.switch));
    assert_eq!(a.params, (s.definition as u64).to_le_bytes().to_vec());
    assert!(switch_player_class(&cat, "GD_IceGolem.NameId_IceGolem").is_none());
    let b = set_fov(&cat, 0x42b4_0000).unwrap();
    assert_eq!((b.object, b.function, b.params), (s.controller, s.fov, vec![0x00, 0x00, 0xb4, 0x42]));
    let c = set_mouse_sensitivity(&cat, 1, 2).unwrap();
    assert_eq!((c.object, c.function, c.params), (s.input, s.sensitivity, vec![1, 0, 0, 0, 2, 0, 0, 0]));
    let d = set_subtitle_state(&cat, false).unwrap();
    assert_eq!((d.object, d.function, d.params), (s.controller, s.subtitles, vec![0]));
    let empty: Vec<UObject> = Vec::new();
    assert!(set_fov(&empty, 0).is_none());
    assert!(set_mouse_sensitivity(&empty, 0, 0).is_none());
    assert!(set_subtitle_state(&empty, true).is_none());
}

#[test]
fn missing_controller_outranks_unknown_character() {
    let r = plan_level_start(&Vec::new(), &config("Nobody"));
    assert!(matches!(r, Err(ScriptError::NameResolutionFailure)));
    let (mock, s) = scene();
    let m = mock.build();
    let cat = parse_uobjects(&m, NAMES, OBJECTS).unwrap();
    let r = plan_level_start(&cat, &config("Nobody"));
    assert!(matches!(r, Err(ScriptError::ConfigParseFailure)));
    let mut ctx = AttachContext::new(NAMES, OBJECTS);
    let plan = ctx.on_level_start_callback(&m, &config("WaterMonk")).unwrap();
    assert_eq!(ctx.rebuilds, 1);
    assert_eq!(plan.len(), 4);
    assert_eq!(plan[0].object, s.controller);
}
