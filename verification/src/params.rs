//! Parameters of a plug-in: their ids, their values and what the plug-in says
//! of each.

use smallvec::SmallVec;
use vstd::prelude::*;

verus! {

/// The id that a plug-in gives one of its parameters.
#[derive(Debug, Clone, Copy, PartialEq, Eq, Structural, Hash)]
pub struct ParamID(pub u32);

impl ParamID {
    /// The id with this number.
    pub fn new(id: u32) -> (r: Self)
        ensures
            r.0 == id,
    {
        ParamID(id)
    }

    /// The number of the id.
    pub fn as_u32(&self) -> (r: u32)
        ensures
            r == self.0,
    {
        self.0
    }
}

/// The value of a parameter, or an amount of modulation. It is held as a
/// 64-bit code whose order is the order of the values: the library compares
/// codes and hands them on, and does no arithmetic on them.
#[derive(Debug, Clone, Copy, PartialEq, Eq, Structural)]
pub struct ParamValue(pub i64);

/// The value within `[min, max]` that is nearest to `v`.
pub open spec fn clamped(v: ParamValue, min: ParamValue, max: ParamValue) -> ParamValue {
    if v.0 < min.0 {
        min
    } else if v.0 > max.0 {
        max
    } else {
        v
    }
}

impl ParamValue {
    /// Brings a value into `[min, max]`.
    pub fn clamp(self, min: ParamValue, max: ParamValue) -> (r: ParamValue)
        ensures
            r == clamped(self, min, max),
            min.0 <= max.0 ==> min.0 <= r.0 <= max.0,
            min.0 <= self.0 <= max.0 ==> r == self,
    {
        if self.0 < min.0 {
            min
        } else if self.0 > max.0 {
            max
        } else {
            self
        }
    }
}

/// The parameter cannot be set by the host.
pub const IS_READONLY: u32 = 0x2;

/// The parameter takes modulation.
pub const IS_MODULATABLE: u32 = 0x100;

/// What a plug-in allows to be done with a parameter, one bit each.
#[derive(Debug, Clone, Copy, PartialEq, Eq, Structural)]
pub struct ParamInfoFlags {
    pub bits: u32,
}

impl ParamInfoFlags {
    /// Every bit of `flags` is set.
    pub open spec fn has(&self, flags: u32) -> bool {
        self.bits & flags == flags
    }

    /// Whether every bit of `flags` is set.
    #[verifier::when_used_as_spec(has)]
    pub fn contains(&self, flags: u32) -> (r: bool)
        ensures
            r == self.has(flags),
    {
        self.bits & flags == flags
    }
}

/// What a plug-in says of one parameter.
#[derive(Debug, Clone, Copy, PartialEq, Eq, Structural)]
pub struct ParamInfo {
    pub stable_id: ParamID,
    pub flags: ParamInfoFlags,
    pub min_value: ParamValue,
    pub max_value: ParamValue,
    pub default_value: ParamValue,
}

/// Whether a gesture on a parameter begins or ends.
#[derive(Debug, Clone, Copy, PartialEq, Eq, Structural)]
pub struct ParamGestureInfo {
    pub is_begin: bool,
}

/// What the control thread is told of a parameter that the plug-in changed.
#[derive(Debug, Clone, Copy, PartialEq, Eq, Structural)]
pub struct ParamModifiedInfo {
    pub param_id: ParamID,
    pub new_value: Option<ParamValue>,
    pub is_gesturing: bool,
}

/// The parameters that one idle tick found changed, in the order in which
/// they were found. The list is a `SmallVec` with room for four entries
/// before it allocates.
#[verifier::external_body]
pub struct ModifiedParams {
    items: SmallVec<[ParamModifiedInfo; 4]>,
}

/// The entries of a list, first to last.
pub uninterp spec fn modified_params_items(list: ModifiedParams) -> Seq<ParamModifiedInfo>;

impl View for ModifiedParams {
    type V = Seq<ParamModifiedInfo>;

    open spec fn view(&self) -> Seq<ParamModifiedInfo> {
        modified_params_items(*self)
    }
}

/// `SmallVec::new`: a list without an entry.
#[verifier::external_body]
fn small_new() -> (list: ModifiedParams)
    ensures
        modified_params_items(list) == Seq::<ParamModifiedInfo>::empty(),
{
    ModifiedParams { items: SmallVec::new() }
}

/// `SmallVec::push`: the entry is added behind the others, which stay.
#[verifier::external_body]
fn small_push(list: &mut ModifiedParams, entry: ParamModifiedInfo)
    ensures
        modified_params_items(*final(list)) == modified_params_items(*old(list)).push(entry),
{
    list.items.push(entry)
}

/// `SmallVec::to_vec`: the entries, first to last.
#[verifier::external_body]
fn small_to_vec(list: &ModifiedParams) -> (entries: Vec<ParamModifiedInfo>)
    ensures
        entries@ == modified_params_items(*list),
{
    list.items.to_vec()
}

impl ModifiedParams {
    /// A list without an entry.
    pub fn new() -> (list: Self)
        ensures
            list@ == Seq::<ParamModifiedInfo>::empty(),
    {
        small_new()
    }

    /// Adds an entry behind the others.
    pub fn push(&mut self, entry: ParamModifiedInfo)
        ensures
            final(self)@ == old(self)@.push(entry),
    {
        small_push(self, entry)
    }

    /// The entries, first to last.
    pub fn to_vec(&self) -> (entries: Vec<ParamModifiedInfo>)
        ensures
            entries@ == self@,
    {
        small_to_vec(self)
    }
}

} // verus!
