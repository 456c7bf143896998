//! Configuration data: the device paths and the tree of named menus,
//! patches and parameters the UI is assembled from.
//!
//! Loading the configuration file is I/O and lives with the application;
//! here stand the plain values it hands over, and the validity checks the
//! assembly relies on. Parameter quantities are carried in hundredths of a
//! unit, as everywhere in this library.
use vstd::prelude::*;

use crate::ui::param::PARAM_LIMIT;

verus! {

/// Paths of the three hardware devices.
#[derive(Clone, Debug)]
pub struct Devices {
    pub framebuffer: String,
    pub encoder: String,
    pub button: String,
}

/// One configured parameter: its name, initial value, step and bounds.
#[derive(Clone, Debug)]
pub struct Param {
    pub name: String,
    pub value: i64,
    pub step: i64,
    pub min: i64,
    pub max: i64,
}

/// One configured patch: its name and its parameters.
#[derive(Clone, Debug)]
pub struct Patch {
    pub name: String,
    pub params: Vec<Param>,
}

/// One configured menu: its name and its patches.
#[derive(Clone, Debug)]
pub struct Menu {
    pub name: String,
    pub patches: Vec<Patch>,
}

/// The whole configuration.
#[derive(Clone, Debug)]
pub struct Config {
    pub devices: Devices,
    pub menus: Vec<Menu>,
}

/// A configured parameter is usable when its initial value lies within its
/// bounds, its step is non-negative, and every quantity is small enough
/// that stepping cannot overflow.
pub open spec fn param_ok(p: Param) -> bool {
    &&& p.min <= p.value <= p.max
    &&& 0 <= p.step <= PARAM_LIMIT as int
    &&& -(PARAM_LIMIT as int) <= p.min
    &&& p.max <= PARAM_LIMIT as int
}

pub open spec fn patch_ok(p: Patch) -> bool {
    forall|i: int| 0 <= i < p.params@.len() ==> param_ok(#[trigger] p.params@[i])
}

pub open spec fn menu_ok(m: Menu) -> bool {
    forall|i: int| 0 <= i < m.patches@.len() ==> patch_ok(#[trigger] m.patches@[i])
}

pub open spec fn menus_ok(ms: Seq<Menu>) -> bool {
    forall|i: int| 0 <= i < ms.len() ==> menu_ok(#[trigger] ms[i])
}

/// Decides whether one configured parameter is usable.
pub fn check_param(p: &Param) -> (r: bool)
    ensures
        r == param_ok(*p),
{
    p.min <= p.value && p.value <= p.max && 0 <= p.step && p.step <= PARAM_LIMIT && -PARAM_LIMIT
        <= p.min && p.max <= PARAM_LIMIT
}

/// Decides whether every parameter of one configured patch is usable.
pub fn check_patch(p: &Patch) -> (r: bool)
    ensures
        r == patch_ok(*p),
{
    let mut i: usize = 0;
    while i < p.params.len()
        invariant
            i <= p.params@.len(),
            forall|k: int| 0 <= k < i ==> param_ok(#[trigger] p.params@[k]),
        decreases p.params@.len() - i,
    {
        if !check_param(&p.params[i]) {
            return false;
        }
        i = i + 1;
    }
    true
}

/// Decides whether every parameter of one configured menu is usable.
pub fn check_menu(m: &Menu) -> (r: bool)
    ensures
        r == menu_ok(*m),
{
    let mut i: usize = 0;
    while i < m.patches.len()
        invariant
            i <= m.patches@.len(),
            forall|k: int| 0 <= k < i ==> patch_ok(#[trigger] m.patches@[k]),
        decreases m.patches@.len() - i,
    {
        if !check_patch(&m.patches[i]) {
            return false;
        }
        i = i + 1;
    }
    true
}

/// Decides whether every parameter in the menu tree is usable.
pub fn check_menus(menus: &Vec<Menu>) -> (r: bool)
    ensures
        r == menus_ok(menus@),
{
    let mut i: usize = 0;
    while i < menus.len()
        invariant
            i <= menus@.len(),
            forall|k: int| 0 <= k < i ==> menu_ok(#[trigger] menus@[k]),
        decreases menus@.len() - i,
    {
        if !check_menu(&menus[i]) {
            return false;
        }
        i = i + 1;
    }
    true
}

} // verus!
