//! The orchestrator: recognises the trigger among intercepted dispatch calls,
//! rebuilds the catalog and plans the scripted remote invocations.
use crate::catalog::{
    controller_pred, first_index, lemma_first_index_found, get_input, get_player_controller_address, get_uobject_from_vec,
    input_pred, named_pred, FUNCTION_CLASS,
};
use crate::catalog::bytes_eq;
use crate::config::{
    character_name_id, character_name_id_spec, is_known_map, map_open_command, wide_cstring,
    OPEN_COMMAND_PREFIX,
};
use crate::invoke::{
    invocations_view, set_class_params, set_fov_params, set_sensitivity_params,
    set_show_subtitles_params, Invocation, InvocationView,
};
use crate::memory::MemoryAccessor;
use crate::reflect::{
    get_uobject_from_address, lemma_objects_view_index, objects_view, parse_uobjects, resolve_object_spec, table_walk,
    object_steps, ReflectError, ResolvedView, UObject, OBJECT_RUN_THRESHOLD,
};
use vstd::bytes::{spec_u32_to_le_bytes, spec_u64_to_le_bytes};
use vstd::prelude::*;
use vstd::string::StringSliceAdditionalSpecFns;

verus! {

/// The dispatched function whose arrival starts the scripted actions.
pub const TRIGGER_FUNCTION: &'static str = "GameInfo.Engine.OnStartOnlineGameComplete";

/// Switches the player's character class.
pub const SWITCH_CLASS_FUNCTION: &'static str = "PoplarPlayerController.PoplarGame.SwitchPoplarPlayerClass";

/// Class of a character's name-identifier definition.
pub const CLASS_DEFINITION_CLASS: &'static str = "PoplarGame.PoplarPlayerNameIdentifierDefinition";

/// Sets the field of view.
pub const SET_FOV_FUNCTION: &'static str = "PlayerController.Engine.FOV";

/// Sets the mouse sensitivity.
pub const SET_SENSITIVITY_FUNCTION: &'static str = "PlayerInput.Engine.SetSensitivity";

/// Turns subtitles on or off.
pub const SET_SUBTITLES_FUNCTION: &'static str = "PlayerController.Engine.SetShowSubtitles";

/// Why the orchestrator stopped.
#[derive(Debug, Clone, Copy, PartialEq, Eq, Structural)]
pub enum ScriptError {
    /// A read touched memory that cannot be read.
    AccessFault,
    /// An object or name the script needs is not there.
    NameResolutionFailure,
    /// A configuration value does not stand for anything known.
    ConfigParseFailure,
}

pub open spec fn lift(e: ReflectError) -> ScriptError {
    match e {
        ReflectError::AccessFault => ScriptError::AccessFault,
        ReflectError::NameResolutionFailure => ScriptError::NameResolutionFailure,
    }
}

fn lift_exec(e: ReflectError) -> (r: ScriptError)
    ensures
        r == lift(e),
{
    match e {
        ReflectError::AccessFault => ScriptError::AccessFault,
        ReflectError::NameResolutionFailure => ScriptError::NameResolutionFailure,
    }
}

/// The configuration values the scripted actions use. Floats are given by
/// their bits.
pub struct ScriptConfig {
    pub character: Vec<u8>,
    pub fov_bits: u32,
    pub sensitivity_x_bits: u32,
    pub sensitivity_y_bits: u32,
    pub subtitles: bool,
}

/// The address of the first object of `cat` that `p` accepts.
pub open spec fn find_addr(cat: Seq<ResolvedView>, p: spec_fn(ResolvedView) -> bool) -> Option<usize> {
    match first_index(cat, p, 0) {
        Some(i) => Some(cat[i].address),
        None => None,
    }
}

/// The function record named `name`.
pub open spec fn function_addr(cat: Seq<ResolvedView>, name: Seq<u8>) -> Option<usize> {
    find_addr(cat, named_pred(name, Some(FUNCTION_CLASS.spec_bytes())))
}

/// The class switch of the active player controller to the character whose
/// definition object is named `name_id`.
pub open spec fn switch_class_spec(cat: Seq<ResolvedView>, name_id: Seq<u8>) -> Option<InvocationView> {
    let pc = find_addr(cat, controller_pred());
    let f = function_addr(cat, SWITCH_CLASS_FUNCTION.spec_bytes());
    let class = find_addr(cat, named_pred(name_id, Some(CLASS_DEFINITION_CLASS.spec_bytes())));
    if pc is Some && f is Some && class is Some {
        Some(InvocationView { object: pc->0, function: f->0, params: spec_u64_to_le_bytes(class->0 as u64) })
    } else {
        None
    }
}

/// Setting the field of view of the active player controller.
pub open spec fn fov_spec(cat: Seq<ResolvedView>, fov_bits: u32) -> Option<InvocationView> {
    let pc = find_addr(cat, controller_pred());
    let f = function_addr(cat, SET_FOV_FUNCTION.spec_bytes());
    if pc is Some && f is Some {
        Some(InvocationView { object: pc->0, function: f->0, params: spec_u32_to_le_bytes(fov_bits) })
    } else {
        None
    }
}

/// Setting the sensitivity of the active player's input handler.
pub open spec fn sensitivity_spec(cat: Seq<ResolvedView>, x_bits: u32, y_bits: u32) -> Option<InvocationView> {
    let input = find_addr(cat, input_pred());
    let f = function_addr(cat, SET_SENSITIVITY_FUNCTION.spec_bytes());
    if input is Some && f is Some {
        Some(
            InvocationView {
                object: input->0,
                function: f->0,
                params: spec_u32_to_le_bytes(x_bits) + spec_u32_to_le_bytes(y_bits),
            },
        )
    } else {
        None
    }
}

/// Turning subtitles on or off for the active player controller.
pub open spec fn subtitles_spec(cat: Seq<ResolvedView>, enabled: bool) -> Option<InvocationView> {
    let pc = find_addr(cat, controller_pred());
    let f = function_addr(cat, SET_SUBTITLES_FUNCTION.spec_bytes());
    if pc is Some && f is Some {
        Some(InvocationView { object: pc->0, function: f->0, params: seq![if enabled { 1u8 } else { 0u8 }] })
    } else {
        None
    }
}

/// The scripted actions for a fresh catalog, in order: switch the character
/// class, set the field of view, set the sensitivity, set subtitles. The
/// player controller and the class-switch function are looked up first: if
/// either is missing that is a name failure, whatever the configuration
/// holds. Then an unknown character selector is a configuration failure, and
/// any other object that cannot be found a name failure. On any failure
/// nothing is invoked.
pub open spec fn level_start_spec(cat: Seq<ResolvedView>, cfg: ScriptConfig) -> Result<Seq<InvocationView>, ScriptError> {
    if find_addr(cat, controller_pred()) is None || function_addr(cat, SWITCH_CLASS_FUNCTION.spec_bytes()) is None {
        Err(ScriptError::NameResolutionFailure)
    } else {
        match character_name_id_spec(cfg.character@) {
            None => Err(ScriptError::ConfigParseFailure),
        Some(n) => match (
            switch_class_spec(cat, n.spec_bytes()),
            fov_spec(cat, cfg.fov_bits),
            sensitivity_spec(cat, cfg.sensitivity_x_bits, cfg.sensitivity_y_bits),
            subtitles_spec(cat, cfg.subtitles),
        ) {
            (Some(a), Some(b), Some(c), Some(d)) => Ok(seq![a, b, c, d]),
            _ => Err(ScriptError::NameResolutionFailure),
        },
        }
    }
}

pub open spec fn opt_invocation_view(o: Option<Invocation>) -> Option<InvocationView> {
    match o {
        Some(i) => Some(i@),
        None => None,
    }
}

pub open spec fn plan_view(r: Result<Vec<Invocation>, ScriptError>) -> Result<Seq<InvocationView>, ScriptError> {
    match r {
        Ok(v) => Ok(invocations_view(v@)),
        Err(e) => Err(e),
    }
}

/// The address of the function record named `name`.
fn find_function(uobjects: &Vec<UObject>, name: &str) -> (r: Result<usize, ScriptError>)
    ensures
        match function_addr(objects_view(uobjects@), name.spec_bytes()) {
            Some(a) => r == Ok::<usize, ScriptError>(a),
            None => r == Err::<usize, ScriptError>(ScriptError::NameResolutionFailure),
        },
{
    proof {
        lemma_objects_view_index(uobjects@);
    }
    proof {
        lemma_first_index_found(objects_view(uobjects@), named_pred(name.spec_bytes(), Some(FUNCTION_CLASS.spec_bytes())), 0);
    }
    match get_uobject_from_vec(name.as_bytes(), Some(FUNCTION_CLASS.as_bytes()), uobjects) {
        Some(o) => Ok(o.address),
        None => Err(ScriptError::NameResolutionFailure),
    }
}

/// The address of the active player controller, or a name failure.
fn find_player_controller(uobjects: &Vec<UObject>) -> (r: Result<usize, ScriptError>)
    ensures
        match find_addr(objects_view(uobjects@), controller_pred()) {
            Some(a) => r == Ok::<usize, ScriptError>(a),
            None => r == Err::<usize, ScriptError>(ScriptError::NameResolutionFailure),
        },
{
    proof {
        lemma_objects_view_index(uobjects@);
        lemma_first_index_found(objects_view(uobjects@), controller_pred(), 0);
    }
    match get_player_controller_address(uobjects) {
        Some(a) => Ok(a),
        None => Err(ScriptError::NameResolutionFailure),
    }
}

/// The invocation that switches the active player controller to the
/// character whose definition object is named `name_id`.
pub fn switch_player_class(parsed_gobjects: &Vec<UObject>, name_id: &str) -> (r: Option<Invocation>)
    ensures
        opt_invocation_view(r) == switch_class_spec(objects_view(parsed_gobjects@), name_id.spec_bytes()),
{
    proof {
        lemma_objects_view_index(parsed_gobjects@);
        lemma_first_index_found(
            objects_view(parsed_gobjects@),
            named_pred(name_id.spec_bytes(), Some(CLASS_DEFINITION_CLASS.spec_bytes())),
            0,
        );
    }
    let player_controller = find_player_controller(parsed_gobjects).ok()?;
    let function_object = find_function(parsed_gobjects, SWITCH_CLASS_FUNCTION).ok()?;
    let class_to_switch_to = get_uobject_from_vec(
        name_id.as_bytes(),
        Some(CLASS_DEFINITION_CLASS.as_bytes()),
        parsed_gobjects,
    )?.address;
    Some(Invocation { object: player_controller, function: function_object, params: set_class_params(class_to_switch_to) })
}

/// The invocation that sets the field of view (a float, by its bits) of the
/// active player controller.
pub fn set_fov(parsed_gobjects: &Vec<UObject>, fov_bits: u32) -> (r: Option<Invocation>)
    ensures
        opt_invocation_view(r) == fov_spec(objects_view(parsed_gobjects@), fov_bits),
{
    let player_controller = find_player_controller(parsed_gobjects).ok()?;
    let fov_function = find_function(parsed_gobjects, SET_FOV_FUNCTION).ok()?;
    Some(Invocation { object: player_controller, function: fov_function, params: set_fov_params(fov_bits) })
}

/// The invocation that sets the mouse sensitivity (two floats, by their bits)
/// of the active player's input handler.
pub fn set_mouse_sensitivity(parsed_gobjects: &Vec<UObject>, x_bits: u32, y_bits: u32) -> (r: Option<Invocation>)
    ensures
        opt_invocation_view(r) == sensitivity_spec(objects_view(parsed_gobjects@), x_bits, y_bits),
{
    proof {
        lemma_objects_view_index(parsed_gobjects@);
        lemma_first_index_found(objects_view(parsed_gobjects@), input_pred(), 0);
    }
    let input = get_input(parsed_gobjects)?.address;
    let sensitivity_function = find_function(parsed_gobjects, SET_SENSITIVITY_FUNCTION).ok()?;
    Some(Invocation { object: input, function: sensitivity_function, params: set_sensitivity_params(x_bits, y_bits) })
}

/// The invocation that turns subtitles on or off for the active player
/// controller.
pub fn set_subtitle_state(parsed_gobjects: &Vec<UObject>, enabled: bool) -> (r: Option<Invocation>)
    ensures
        opt_invocation_view(r) == subtitles_spec(objects_view(parsed_gobjects@), enabled),
{
    let player_controller = find_player_controller(parsed_gobjects).ok()?;
    let subtitles_function = find_function(parsed_gobjects, SET_SUBTITLES_FUNCTION).ok()?;
    Some(Invocation { object: player_controller, function: subtitles_function, params: set_show_subtitles_params(enabled) })
}

/// Plans the scripted actions for a freshly built catalog (see
/// `level_start_spec`).
pub fn plan_level_start(uobjects: &Vec<UObject>, config: &ScriptConfig) -> (r: Result<Vec<Invocation>, ScriptError>)
    ensures
        plan_view(r) == level_start_spec(objects_view(uobjects@), *config),
{
    find_player_controller(uobjects)?;
    find_function(uobjects, SWITCH_CLASS_FUNCTION)?;
    let name_id = match character_name_id(config.character.as_slice()) {
        Some(n) => n,
        None => {
            return Err(ScriptError::ConfigParseFailure);
        },
    };
    let class = switch_player_class(uobjects, name_id);
    let fov = set_fov(uobjects, config.fov_bits);
    let sensitivity = set_mouse_sensitivity(uobjects, config.sensitivity_x_bits, config.sensitivity_y_bits);
    let subtitles = set_subtitle_state(uobjects, config.subtitles);
    match (class, fov, sensitivity, subtitles) {
        (Some(a), Some(b), Some(c), Some(d)) => {
            let mut plan: Vec<Invocation> = Vec::new();
            plan.push(a);
            plan.push(b);
            plan.push(c);
            plan.push(d);
            assert(invocations_view(plan@) =~= level_start_spec(objects_view(uobjects@), *config)->Ok_0);
            Ok(plan)
        },
        _ => Err(ScriptError::NameResolutionFailure),
    }
}

/// Offset from the first catalogued object to the game engine object, which
/// takes console commands.
pub const ENGINE_OFFSET_FROM_FIRST_OBJECT: usize = 0x25ebde8;

/// State shared by the hook replacements: the tables' locations, written at
/// attach time, the catalog, rebuilt whenever the trigger arrives, and the
/// engine call context last observed.
pub struct AttachContext {
    pub gnames: usize,
    pub gobjects: usize,
    pub catalog: Vec<UObject>,
    pub rebuilds: u64,
    pub engine_address: usize,
    pub output_device: usize,
}

pub struct ContextView {
    pub gnames: usize,
    pub gobjects: usize,
    pub catalog: Seq<ResolvedView>,
    pub rebuilds: u64,
    pub engine_address: usize,
    pub output_device: usize,
}

impl View for AttachContext {
    type V = ContextView;

    open spec fn view(&self) -> ContextView {
        ContextView {
            gnames: self.gnames,
            gobjects: self.gobjects,
            catalog: objects_view(self.catalog@),
            rebuilds: self.rebuilds,
            engine_address: self.engine_address,
            output_device: self.output_device,
        }
    }
}

/// One more rebuild, counted up to the counter's limit.
pub open spec fn bump(n: u64) -> u64 {
    if n < u64::MAX { (n + 1) as u64 } else { n }
}

/// The dispatched function resolved to the trigger.
pub open spec fn is_trigger(o: Option<ResolvedView>) -> bool {
    o matches Some(v) && v.name == TRIGGER_FUNCTION.spec_bytes()
}

/// One intercepted dispatch of `function`: the context afterwards, and the
/// invocations to make. A call that is not the trigger changes nothing and
/// asks for nothing; the trigger rebuilds the catalog, counts the rebuild and
/// plans the scripted actions on the new catalog.
pub open spec fn dispatch_spec<M: MemoryAccessor>(c: ContextView, m: &M, function: usize, cfg: ScriptConfig) -> (ContextView, Result<Seq<InvocationView>, ScriptError>) {
    match resolve_object_spec(m, c.gnames as int, function as int, true) {
        Err(e) => (c, Err(lift(e))),
        Ok(o) => if is_trigger(o) {
            match table_walk(object_steps(m, c.gnames as int, c.gobjects as int), 0, 0, OBJECT_RUN_THRESHOLD as int) {
                Err(e) => (c, Err(lift(e))),
                Ok(s) => (ContextView { catalog: s, rebuilds: bump(c.rebuilds), ..c }, level_start_spec(s, cfg)),
            }
        } else {
            (c, Ok(Seq::empty()))
        },
    }
}

/// A sequence of intercepted dispatches, in order, stopping at the first
/// failure: the context afterwards and all invocations asked for.
pub open spec fn run_spec<M: MemoryAccessor>(c: ContextView, m: &M, calls: Seq<usize>, cfg: ScriptConfig) -> (ContextView, Result<Seq<InvocationView>, ScriptError>)
    decreases calls.len(),
{
    if calls.len() == 0 {
        (c, Ok(Seq::empty()))
    } else {
        let (c1, r1) = run_spec(c, m, calls.drop_last(), cfg);
        match r1 {
            Err(e) => (c1, Err(e)),
            Ok(acc) => {
                let (c2, r2) = dispatch_spec(c1, m, calls.last(), cfg);
                (c2, match r2 {
                    Ok(x) => Ok(acc + x),
                    Err(e) => Err(e),
                })
            },
        }
    }
}

impl AttachContext {
    /// A context for the tables at `gnames` and `gobjects`, with an empty
    /// catalog.
    pub fn new(gnames: usize, gobjects: usize) -> (r: AttachContext)
        ensures
            r@ == (ContextView {
                gnames,
                gobjects,
                catalog: Seq::empty(),
                rebuilds: 0,
                engine_address: 0,
                output_device: 0,
            }),
    {
        let r = AttachContext { gnames, gobjects, catalog: Vec::new(), rebuilds: 0, engine_address: 0, output_device: 0 };
        assert(objects_view(r.catalog@) =~= Seq::<ResolvedView>::empty());
        r
    }

    /// Rebuilds the catalog from the object table.
    pub fn rebuild_catalog<M: MemoryAccessor>(&mut self, m: &M) -> (r: Result<(), ScriptError>)
        ensures
            match table_walk(object_steps(m, old(self).gnames as int, old(self).gobjects as int), 0, 0, OBJECT_RUN_THRESHOLD as int) {
                Ok(s) => r is Ok && final(self)@ == (ContextView { catalog: s, rebuilds: bump(old(self).rebuilds), ..old(self)@ }),
                Err(e) => r == Err::<(), ScriptError>(lift(e)) && final(self)@ == old(self)@,
            },
    {
        match parse_uobjects(m, self.gnames, self.gobjects) {
            Ok(v) => {
                self.catalog = v;
                if self.rebuilds < u64::MAX {
                    self.rebuilds = self.rebuilds + 1;
                }
                Ok(())
            },
            Err(e) => Err(lift_exec(e)),
        }
    }

    /// Decides what an intercepted dispatch of `ufunction_address` leads to
    /// (see `dispatch_spec`). The caller makes the returned invocations in
    /// order and then forwards the intercepted call to the original.
    pub fn fake_process_event<M: MemoryAccessor>(&mut self, m: &M, ufunction_address: usize, config: &ScriptConfig) -> (r: Result<Vec<Invocation>, ScriptError>)
        ensures
            (final(self)@, plan_view(r)) == dispatch_spec(old(self)@, m, ufunction_address, *config),
    {
        let ufunction = match get_uobject_from_address(m, self.gnames, ufunction_address, true) {
            Ok(o) => o,
            Err(e) => {
                return Err(lift_exec(e));
            },
        };
        let hit = match &ufunction {
            Some(f) => bytes_eq(f.name.as_slice(), TRIGGER_FUNCTION.as_bytes()),
            None => false,
        };
        if !hit {
            let r: Vec<Invocation> = Vec::new();
            assert(invocations_view(r@) =~= Seq::<InvocationView>::empty());
            return Ok(r);
        }
        self.on_level_start_callback(m, config)
    }

    /// What the trigger leads to: the object table is walked once into a new
    /// catalog, and the scripted actions are planned from that catalog alone.
    pub fn on_level_start_callback<M: MemoryAccessor>(&mut self, m: &M, config: &ScriptConfig) -> (r: Result<Vec<Invocation>, ScriptError>)
        ensures
            match table_walk(object_steps(m, old(self).gnames as int, old(self).gobjects as int), 0, 0, OBJECT_RUN_THRESHOLD as int) {
                Ok(s) => final(self)@ == (ContextView { catalog: s, rebuilds: bump(old(self).rebuilds), ..old(self)@ })
                    && plan_view(r) == level_start_spec(s, *config),
                Err(e) => r == Err::<Vec<Invocation>, ScriptError>(lift(e)) && final(self)@ == old(self)@,
            },
    {
        self.rebuild_catalog(m)?;
        plan_level_start(&self.catalog, config)
    }

    /// Records the engine call context of an intercepted console command.
    pub fn fake_engine_exec(&mut self, game_engine_address: usize, f_output_device: usize)
        ensures
            final(self)@ == (ContextView {
                engine_address: game_engine_address,
                output_device: f_output_device,
                ..old(self)@
            }),
    {
        self.engine_address = game_engine_address;
        self.output_device = f_output_device;
    }
}

/// A console command for the engine object: open a level.
pub struct MapLoadCall {
    pub engine: usize,
    pub command: Vec<u16>,
}

/// The console command that opens the level `map_key` names, and the engine
/// object that takes it: an unknown level is a configuration failure; an
/// empty catalog, or an engine address past the address range, a name
/// failure.
pub fn map_load_call(uobjects: &Vec<UObject>, map_key: &[u8]) -> (r: Result<MapLoadCall, ScriptError>)
    ensures
        match r {
            Ok(c) => is_known_map(map_key@) && uobjects@.len() > 0
                && c.engine == uobjects@[0].address + ENGINE_OFFSET_FROM_FIRST_OBJECT
                && c.command@ == wide_cstring(OPEN_COMMAND_PREFIX.spec_bytes() + map_key@),
            Err(e) => if !is_known_map(map_key@) {
                e == ScriptError::ConfigParseFailure
            } else {
                e == ScriptError::NameResolutionFailure && (uobjects@.len() == 0
                    || uobjects@[0].address + ENGINE_OFFSET_FROM_FIRST_OBJECT > usize::MAX)
            },
        },
{
    let command = match map_open_command(map_key) {
        Some(c) => c,
        None => {
            return Err(ScriptError::ConfigParseFailure);
        },
    };
    if uobjects.len() == 0 {
        return Err(ScriptError::NameResolutionFailure);
    }
    let first = uobjects[0].address;
    if first > usize::MAX - ENGINE_OFFSET_FROM_FIRST_OBJECT {
        return Err(ScriptError::NameResolutionFailure);
    }
    Ok(MapLoadCall { engine: first + ENGINE_OFFSET_FROM_FIRST_OBJECT, command })
}

/// The dispatched function resolves, and is not the trigger.
pub open spec fn quiet_call<M: MemoryAccessor>(m: &M, gnames: usize, function: usize) -> bool {
    resolve_object_spec(m, gnames as int, function as int, true) matches Ok(o) && !is_trigger(o)
}

/// The dispatched function resolves to the trigger.
pub open spec fn trigger_call<M: MemoryAccessor>(m: &M, gnames: usize, function: usize) -> bool {
    resolve_object_spec(m, gnames as int, function as int, true) matches Ok(o) && is_trigger(o)
}

proof fn lemma_quiet_prefix<M: MemoryAccessor>(c: ContextView, m: &M, calls: Seq<usize>, cfg: ScriptConfig, k: int)
    requires
        0 <= k <= calls.len(),
        forall|j: int| 0 <= j < k ==> quiet_call(m, c.gnames, #[trigger] calls[j]),
    ensures
        run_spec(c, m, calls.subrange(0, k), cfg) == (c, Ok::<Seq<InvocationView>, ScriptError>(Seq::empty())),
    decreases k,
{
    if k > 0 {
        lemma_quiet_prefix(c, m, calls, cfg, k - 1);
        assert(calls.subrange(0, k).drop_last() =~= calls.subrange(0, k - 1));
        assert(calls.subrange(0, k).last() == calls[k - 1]);
        assert(quiet_call(m, c.gnames, calls[k - 1]));
        assert(Seq::<InvocationView>::empty() + Seq::<InvocationView>::empty() =~= Seq::<InvocationView>::empty());
    }
}

/// Among intercepted dispatches, only the trigger acts: when every call but
/// the last resolves to another function and the last is the trigger, the
/// whole sequence rebuilds the catalog exactly once and asks for exactly the
/// four scripted invocations, in order: class switch, field of view,
/// sensitivity, subtitles (provided the rebuild and the plan succeed).
pub proof fn lemma_only_trigger_acts<M: MemoryAccessor>(c: ContextView, m: &M, calls: Seq<usize>, cfg: ScriptConfig)
    requires
        calls.len() >= 1,
        forall|j: int| 0 <= j < calls.len() - 1 ==> quiet_call(m, c.gnames, #[trigger] calls[j]),
        trigger_call(m, c.gnames, calls.last()),
        table_walk(object_steps(m, c.gnames as int, c.gobjects as int), 0, 0, OBJECT_RUN_THRESHOLD as int) is Ok,
        level_start_spec(
            table_walk(object_steps(m, c.gnames as int, c.gobjects as int), 0, 0, OBJECT_RUN_THRESHOLD as int)->Ok_0,
            cfg,
        ) is Ok,
    ensures
        ({
            let s = table_walk(object_steps(m, c.gnames as int, c.gobjects as int), 0, 0, OBJECT_RUN_THRESHOLD as int)->Ok_0;
            let (c2, r) = run_spec(c, m, calls, cfg);
            &&& c2 == (ContextView { catalog: s, rebuilds: bump(c.rebuilds), ..c })
            &&& r == level_start_spec(s, cfg)
            &&& r->Ok_0.len() == 4
            &&& r->Ok_0[0].function == function_addr(s, SWITCH_CLASS_FUNCTION.spec_bytes())->0
            &&& r->Ok_0[1].function == function_addr(s, SET_FOV_FUNCTION.spec_bytes())->0
            &&& r->Ok_0[2].function == function_addr(s, SET_SENSITIVITY_FUNCTION.spec_bytes())->0
            &&& r->Ok_0[3].function == function_addr(s, SET_SUBTITLES_FUNCTION.spec_bytes())->0
        }),
{
    let k = calls.len() - 1;
    lemma_quiet_prefix(c, m, calls, cfg, k);
    assert(calls.drop_last() =~= calls.subrange(0, k));
    let s = table_walk(object_steps(m, c.gnames as int, c.gobjects as int), 0, 0, OBJECT_RUN_THRESHOLD as int)->Ok_0;
    let p = level_start_spec(s, cfg)->Ok_0;
    assert(Seq::<InvocationView>::empty() + p =~= p);
}

} // verus!
