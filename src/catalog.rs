//! Lookups over a catalog: the objects resolved by one walk of the object
//! table, in table order.
use crate::reflect::{objects_view, ResolvedView, UObject};
use vstd::prelude::*;
use vstd::string::StringSliceAdditionalSpecFns;

verus! {

/// Class of function records.
pub const FUNCTION_CLASS: &'static str = "Core.Function";

/// Class of the game's camera.
pub const CAMERA_CLASS: &'static str = "PoplarGame.PoplarCamera";

/// Part of the name of every object owned by the active world.
pub const ACTIVE_WORLD_PATH: &'static str = "PersistentLevel.TheWorld.";

/// Class of the player's input handler.
pub const INPUT_CLASS: &'static str = "PoplarGame.PoplarPlayerInput";

/// Part of the name of the input handler owned by the active player controller.
pub const INPUT_OWNER_PATH: &'static str = "PoplarPlayerController.PersistentLevel.TheWorld.";

/// Class of the player controller.
pub const CONTROLLER_CLASS: &'static str = "PoplarGame.PoplarPlayerController";

/// Parts of the name of the active player controller.
pub const CONTROLLER_NAME_PART: &'static str = "PoplarPlayerController";

pub const CONTROLLER_WORLD_PART: &'static str = "PersistentLevel.TheWorld";

/// The index of the first object, from `i` on, that `p` accepts.
pub open spec fn first_index(s: Seq<ResolvedView>, p: spec_fn(ResolvedView) -> bool, i: int) -> Option<int>
    decreases s.len() - i,
{
    if i < 0 || i >= s.len() {
        None
    } else if p(s[i]) {
        Some(i)
    } else {
        first_index(s, p, i + 1)
    }
}

/// `needle` occurs in `hay` at position `i`.
pub open spec fn occurs_at(hay: Seq<u8>, needle: Seq<u8>, i: int) -> bool {
    0 <= i && i + needle.len() <= hay.len() && hay.subrange(i, i + needle.len()) == needle
}

/// `needle` occurs somewhere in `hay`.
pub open spec fn contains(hay: Seq<u8>, needle: Seq<u8>) -> bool {
    exists|i: int| occurs_at(hay, needle, i)
}

/// The object is named `name` and, where a class is asked for, has exactly
/// that class name.
pub open spec fn named(o: ResolvedView, name: Seq<u8>, class: Option<Seq<u8>>) -> bool {
    o.name == name && match class {
        None => true,
        Some(c) => o.class_name == Some(c),
    }
}

pub open spec fn opt_slice_view(o: Option<&[u8]>) -> Option<Seq<u8>> {
    match o {
        Some(s) => Some(s@),
        None => None,
    }
}

pub open spec fn is_camera(o: ResolvedView) -> bool {
    o.class_name == Some(CAMERA_CLASS.spec_bytes()) && contains(o.name, ACTIVE_WORLD_PATH.spec_bytes())
}

pub open spec fn is_input(o: ResolvedView) -> bool {
    o.class_name == Some(INPUT_CLASS.spec_bytes()) && contains(o.name, INPUT_OWNER_PATH.spec_bytes())
}

pub open spec fn is_player_controller(o: ResolvedView) -> bool {
    contains(o.name, CONTROLLER_NAME_PART.spec_bytes()) && contains(o.name, CONTROLLER_WORLD_PART.spec_bytes())
        && o.class_name == Some(CONTROLLER_CLASS.spec_bytes())
}

/// Byte-wise equality.
pub fn bytes_eq(a: &[u8], b: &[u8]) -> (r: bool)
    ensures
        r == (a@ == b@),
{
    if a.len() != b.len() {
        return false;
    }
    let mut i: usize = 0;
    while i < a.len()
        invariant
            a@.len() == b@.len(),
            i <= a@.len(),
            forall|j: int| 0 <= j < i ==> a@[j] == b@[j],
        decreases a@.len() - i,
    {
        if a[i] != b[i] {
            return false;
        }
        i = i + 1;
    }
    assert(a@ =~= b@);
    true
}

/// Whether `needle` occurs in `hay` at position `i`.
fn occurs_at_exec(hay: &[u8], needle: &[u8], i: usize) -> (r: bool)
    requires
        i + needle@.len() <= hay@.len(),
    ensures
        r == occurs_at(hay@, needle@, i as int),
{
    let hay_len: usize = hay.len();
    let mut k: usize = 0;
    while k < needle.len()
        invariant
            hay_len == hay@.len(),
            i + needle@.len() <= hay@.len(),
            k <= needle@.len(),
            forall|j: int| 0 <= j < k ==> hay@[i + j] == needle@[j],
        decreases needle@.len() - k,
    {
        if hay[i + k] != needle[k] {
            assert(hay@.subrange(i as int, i + needle@.len())[k as int] == hay@[i + k]);
            return false;
        }
        k = k + 1;
    }
    assert(hay@.subrange(i as int, i + needle@.len()) =~= needle@);
    true
}

/// Whether `needle` occurs in `hay`.
pub fn contains_bytes(hay: &[u8], needle: &[u8]) -> (r: bool)
    ensures
        r == contains(hay@, needle@),
{
    if needle.len() > hay.len() {
        return false;
    }
    let last: usize = hay.len() - needle.len();
    let mut i: usize = 0;
    loop
        invariant
            last == hay@.len() - needle@.len(),
            i <= last,
            forall|j: int| 0 <= j < i ==> !occurs_at(hay@, needle@, j),
        decreases last - i,
    {
        if occurs_at_exec(hay, needle, i) {
            return true;
        }
        if i == last {
            assert forall|j: int| !occurs_at(hay@, needle@, j) by {
                if 0 <= j && j + needle@.len() <= hay@.len() {
                    assert(j <= i);
                }
            }
            return false;
        }
        i = i + 1;
    }
}

pub open spec fn named_pred(name: Seq<u8>, class: Option<Seq<u8>>) -> spec_fn(ResolvedView) -> bool {
    |o: ResolvedView| named(o, name, class)
}

pub open spec fn address_pred(addr: usize) -> spec_fn(ResolvedView) -> bool {
    |o: ResolvedView| o.address == addr
}

pub open spec fn camera_pred() -> spec_fn(ResolvedView) -> bool {
    |o: ResolvedView| is_camera(o)
}

pub open spec fn input_pred() -> spec_fn(ResolvedView) -> bool {
    |o: ResolvedView| is_input(o)
}

pub open spec fn controller_pred() -> spec_fn(ResolvedView) -> bool {
    |o: ResolvedView| is_player_controller(o)
}

/// The first object of `vec` that `p` accepts.
pub open spec fn first_match(vec: Seq<UObject>, p: spec_fn(ResolvedView) -> bool) -> Option<int> {
    first_index(objects_view(vec), p, 0)
}

/// Whether the object's class name is exactly `c`.
fn class_is(o: &UObject, c: &[u8]) -> (r: bool)
    ensures
        r == (o@.class_name == Some(c@)),
{
    match &o.class_name {
        Some(cn) => bytes_eq(cn.as_slice(), c),
        None => false,
    }
}

/// The first object named `name` (a fully qualified name) whose class name,
/// where `class` is given, is exactly `class`; an object without a class
/// name never passes a class filter.
pub fn get_uobject_from_vec<'a>(name: &[u8], class: Option<&[u8]>, vec: &'a Vec<UObject>) -> (r: Option<&'a UObject>)
    ensures
        match first_match(vec@, named_pred(name@, opt_slice_view(class))) {
            Some(i) => r == Some(&vec@[i]),
            None => r is None,
        },
{
    let ghost p = named_pred(name@, opt_slice_view(class));
    let mut i: usize = 0;
    while i < vec.len()
        invariant
            i <= vec@.len(),
            p == named_pred(name@, opt_slice_view(class)),
            first_match(vec@, p) == first_index(objects_view(vec@), p, i as int),
        decreases vec@.len() - i,
    {
        let o = &vec[i];
        let hit = bytes_eq(o.name.as_slice(), name) && match class {
            None => true,
            Some(c) => class_is(o, c),
        };
        assert(objects_view(vec@)[i as int] == o@);
        if hit {
            return Some(o);
        }
        i = i + 1;
    }
    None
}

/// The first object at address `uobject_address`.
pub fn get_uobject_from_vec_by_address<'a>(uobject_address: usize, vec: &'a Vec<UObject>) -> (r: Option<&'a UObject>)
    ensures
        match first_match(vec@, address_pred(uobject_address)) {
            Some(i) => r == Some(&vec@[i]),
            None => r is None,
        },
{
    let ghost p = address_pred(uobject_address);
    let mut i: usize = 0;
    while i < vec.len()
        invariant
            i <= vec@.len(),
            p == address_pred(uobject_address),
            first_match(vec@, p) == first_index(objects_view(vec@), p, i as int),
        decreases vec@.len() - i,
    {
        let o = &vec[i];
        assert(objects_view(vec@)[i as int] == o@);
        if o.address == uobject_address {
            return Some(o);
        }
        i = i + 1;
    }
    None
}

/// The first camera object of the active world.
pub fn get_camera<'a>(parsed_gobjects: &'a Vec<UObject>) -> (r: Option<&'a UObject>)
    ensures
        match first_match(parsed_gobjects@, camera_pred()) {
            Some(i) => r == Some(&parsed_gobjects@[i]),
            None => r is None,
        },
{
    let ghost p = camera_pred();
    let mut i: usize = 0;
    while i < parsed_gobjects.len()
        invariant
            i <= parsed_gobjects@.len(),
            p == camera_pred(),
            first_match(parsed_gobjects@, p) == first_index(objects_view(parsed_gobjects@), p, i as int),
        decreases parsed_gobjects@.len() - i,
    {
        let o = &parsed_gobjects[i];
        assert(objects_view(parsed_gobjects@)[i as int] == o@);
        if class_is(o, CAMERA_CLASS.as_bytes()) && contains_bytes(o.name.as_slice(), ACTIVE_WORLD_PATH.as_bytes()) {
            return Some(o);
        }
        i = i + 1;
    }
    None
}

/// The first input handler owned by the active player controller.
pub fn get_input<'a>(parsed_gobjects: &'a Vec<UObject>) -> (r: Option<&'a UObject>)
    ensures
        match first_match(parsed_gobjects@, input_pred()) {
            Some(i) => r == Some(&parsed_gobjects@[i]),
            None => r is None,
        },
{
    let ghost p = input_pred();
    let mut i: usize = 0;
    while i < parsed_gobjects.len()
        invariant
            i <= parsed_gobjects@.len(),
            p == input_pred(),
            first_match(parsed_gobjects@, p) == first_index(objects_view(parsed_gobjects@), p, i as int),
        decreases parsed_gobjects@.len() - i,
    {
        let o = &parsed_gobjects[i];
        assert(objects_view(parsed_gobjects@)[i as int] == o@);
        if class_is(o, INPUT_CLASS.as_bytes()) && contains_bytes(o.name.as_slice(), INPUT_OWNER_PATH.as_bytes()) {
            return Some(o);
        }
        i = i + 1;
    }
    None
}

/// The address of the first player controller of the active world.
pub fn get_player_controller_address(parsed_gobjects: &Vec<UObject>) -> (r: Option<usize>)
    ensures
        match first_match(parsed_gobjects@, controller_pred()) {
            Some(i) => r == Some(parsed_gobjects@[i].address),
            None => r is None,
        },
{
    let ghost p = controller_pred();
    let mut i: usize = 0;
    while i < parsed_gobjects.len()
        invariant
            i <= parsed_gobjects@.len(),
            p == controller_pred(),
            first_match(parsed_gobjects@, p) == first_index(objects_view(parsed_gobjects@), p, i as int),
        decreases parsed_gobjects@.len() - i,
    {
        let o = &parsed_gobjects[i];
        assert(objects_view(parsed_gobjects@)[i as int] == o@);
        if contains_bytes(o.name.as_slice(), CONTROLLER_NAME_PART.as_bytes())
            && contains_bytes(o.name.as_slice(), CONTROLLER_WORLD_PART.as_bytes())
            && class_is(o, CONTROLLER_CLASS.as_bytes()) {
            return Some(o.address);
        }
        i = i + 1;
    }
    None
}

/// A found index lies inside the sequence, at an accepted object.
pub proof fn lemma_first_index_found(s: Seq<ResolvedView>, p: spec_fn(ResolvedView) -> bool, k: int)
    requires
        0 <= k,
    ensures
        first_index(s, p, k) matches Some(i) ==> k <= i < s.len() && p(s[i]),
    decreases s.len() - k,
{
    if k < s.len() && !p(s[k]) {
        lemma_first_index_found(s, p, k + 1);
    }
}

proof fn lemma_first_index_none(s: Seq<ResolvedView>, p: spec_fn(ResolvedView) -> bool, i: int)
    requires
        0 <= i,
        forall|j: int| i <= j < s.len() ==> !p(#[trigger] s[j]),
    ensures
        first_index(s, p, i) is None,
    decreases s.len() - i,
{
    if i < s.len() {
        lemma_first_index_none(s, p, i + 1);
    }
}

proof fn lemma_first_index_some(s: Seq<ResolvedView>, p: spec_fn(ResolvedView) -> bool, i: int, k: int)
    requires
        0 <= i <= k < s.len(),
        p(s[k]),
    ensures
        first_index(s, p, i) is Some,
    decreases k - i,
{
    if i < k && !p(s[i]) {
        lemma_first_index_some(s, p, i + 1, k);
    }
}

/// A class filter rejects an object whose name matches but whose class does
/// not: where no object named `name` has class name `class`, the filtered
/// lookup finds nothing, while the lookup without a filter finds the object
/// at `k`, or one before it.
pub proof fn lemma_class_filter_rejects(vec: Seq<UObject>, name: Seq<u8>, class: Seq<u8>, k: int)
    requires
        0 <= k < vec.len(),
        vec[k]@.name == name,
        forall|j: int| 0 <= j < vec.len() && (#[trigger] vec[j])@.name == name ==> vec[j]@.class_name != Some(class),
    ensures
        first_match(vec, named_pred(name, Some(class))) is None,
        first_match(vec, named_pred(name, None)) is Some,
{
    let s = objects_view(vec);
    assert forall|j: int| 0 <= j < s.len() implies !named_pred(name, Some(class))(#[trigger] s[j]) by {
        assert(s[j] == vec[j]@);
    }
    lemma_first_index_none(s, named_pred(name, Some(class)), 0);
    assert(s[k] == vec[k]@);
    lemma_first_index_some(s, named_pred(name, None), 0, k);
}

} // verus!
