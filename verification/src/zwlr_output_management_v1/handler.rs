use std::collections::HashMap;
use vstd::prelude::*;
use vstd::std_specs::iter::IteratorSpec;
use vstd::string::StringExecFns;
use wayland_protocols_wlr::output_management::v1::client::{
    zwlr_output_head_v1::ZwlrOutputHeadV1, zwlr_output_mode_v1::ZwlrOutputModeV1,
};

use crate::copies::copy_vec;
use super::errors::{OutputManagementHandlerError, OutputManagementHandlerErrorCodes};
use super::output::output_head::{WlOutputHead, WlOutputHeadView};
use super::output::output_mode::WlOutputMode;

verus! {

/// The identity of a head or mode object: a number that the caller gives the
/// object when it appears and never gives another object, as its `ObjectId`
/// tells it from every other object, a later one with the same protocol id
/// included.
pub type ObjectKey = u64;

/// Whether a head adapts its refresh rate to the content.
#[derive(Debug, Clone, Copy, PartialEq, Eq, Structural)]
pub enum AdaptiveSyncState {
    Disabled,
    Enabled,
}

/// What the output management handler tells its subscribers. Heads and modes
/// are named by their object keys.
#[derive(Debug)]
pub enum OutputManagementEvent {
    Head { id: ObjectKey },
    Done { serial: u32 },
    Finished,
    HeadName { id: ObjectKey, name: String },
    HeadDescription { id: ObjectKey, description: String },
    HeadPhysicalSize { id: ObjectKey, height: i32, width: i32 },
    HeadMode { id: ObjectKey, mode_id: ObjectKey },
    HeadEnabled { id: ObjectKey, enabled: bool },
    HeadCurrentMode { id: ObjectKey, mode_id: ObjectKey },
    HeadPosition { id: ObjectKey, x: i32, y: i32 },
    HeadTransform { id: ObjectKey, transform: Result<u32, u32> },
    HeadScale { id: ObjectKey, scale_bits: u64 },
    HeadFinished { id: ObjectKey },
    HeadMake { id: ObjectKey, make: String },
    HeadModel { id: ObjectKey, model: String },
    HeadSerialNumber { id: ObjectKey, serial_number: String },
    HeadAdaptiveSync { id: ObjectKey, state: Result<AdaptiveSyncState, u32> },
    ModeSize { height: i32, width: i32 },
    ModeRefresh { refresh: i32 },
    ModePreferred,
    ModeFinished,
    ConfigurationSucceeded,
    ConfigurationFailed,
    ConfigurationCancelled,
}

/// What a client can ask of a head.
#[derive(Debug)]
pub struct OutputHeadMeta {
    pub id: ObjectKey,
    pub adaptive_sync: Option<AdaptiveSyncState>,
    pub current_mode: Option<ObjectKey>,
    pub description: String,
    pub enabled: bool,
    pub height: i32,
    pub make: String,
    pub model: String,
    pub modes: Vec<ObjectKey>,
    pub name: String,
    pub pos_x: i32,
    pub pos_y: i32,
    pub scale_bits: u64,
    pub transform: Option<u32>,
    pub width: i32,
}

/// What a client can ask of a mode.
#[derive(Debug, Clone, Copy, PartialEq, Eq, Structural)]
pub struct OutputModeMeta {
    pub id: ObjectKey,
    pub width: i32,
    pub height: i32,
    pub refresh: i32,
    pub preferred: bool,
}

/// The heads and modes that the compositor has announced, by object key,
/// the head each mode belongs to, and the serial that configurations need.
pub struct OutputManagementState {
    pub output_manager_serial: Option<u32>,
    pub output_heads: HashMap<ObjectKey, WlOutputHead>,
    pub output_modes: HashMap<ObjectKey, WlOutputMode>,
    pub mode_to_head_ids: HashMap<ObjectKey, ObjectKey>,
}

/// What an event from the compositor does to the manager's serial: a `done`
/// sets it, the manager's `finished` clears it, and every other event keeps it.
#[derive(PartialEq, Eq, Structural)]
pub enum SerialEffect {
    Done(u32),
    Cleared,
    Kept,
}

/// The manager's serial after one event.
pub open spec fn serial_after(serial: Option<u32>, effect: SerialEffect) -> Option<u32> {
    match effect {
        SerialEffect::Done(s) => Some(s),
        SerialEffect::Cleared => None,
        SerialEffect::Kept => serial,
    }
}

/// The manager's serial after a sequence of events, in order.
pub open spec fn serial_after_all(serial: Option<u32>, effects: Seq<SerialEffect>) -> Option<u32>
    decreases effects.len(),
{
    if effects.len() == 0 {
        serial
    } else {
        serial_after(serial_after_all(serial, effects.drop_last()), effects.last())
    }
}

/// The error of the given code and sentence.
pub open spec fn is_failure(e: OutputManagementHandlerError, code: OutputManagementHandlerErrorCodes, message: Seq<char>) -> bool {
    e.code == code && e.message@ == message
}

pub open spec fn no_serial_message() -> Seq<char> {
    "output serial not found, manager not ready for configuration"@
}

pub open spec fn head_not_found_message() -> Seq<char> {
    "output head not found"@
}

pub open spec fn mode_not_found_message() -> Seq<char> {
    "output mode not found"@
}

fn no_serial() -> (e: OutputManagementHandlerError)
    ensures
        is_failure(e, OutputManagementHandlerErrorCodes::NoSerialManagerNotReady, no_serial_message()),
{
    OutputManagementHandlerError::new(
        OutputManagementHandlerErrorCodes::NoSerialManagerNotReady,
        String::from_str("output serial not found, manager not ready for configuration"),
    )
}

fn head_not_found() -> (e: OutputManagementHandlerError)
    ensures
        is_failure(e, OutputManagementHandlerErrorCodes::HeadNotFoundError, head_not_found_message()),
{
    OutputManagementHandlerError::new(
        OutputManagementHandlerErrorCodes::HeadNotFoundError,
        String::from_str("output head not found"),
    )
}

fn mode_not_found() -> (e: OutputManagementHandlerError)
    ensures
        is_failure(e, OutputManagementHandlerErrorCodes::ModeNotFoundError, mode_not_found_message()),
{
    OutputManagementHandlerError::new(
        OutputManagementHandlerErrorCodes::ModeNotFoundError,
        String::from_str("output mode not found"),
    )
}

/// The change that a configuration makes to one head.
#[derive(Debug)]
pub enum HeadChange<'a> {
    /// Enable the head and change nothing else.
    Enable,
    Disable,
    Mode { mode: &'a ZwlrOutputModeV1 },
    CustomMode { width: i32, height: i32, refresh: i32 },
    Transform { transform: u32 },
    Position { x: i32, y: i32 },
    Scale { scale_bits: u64 },
    AdaptiveSync { state: AdaptiveSyncState },
}

/// A configuration to create with the manager's serial and apply: the head
/// it changes and how. Every change but `Disable` enables the head first.
#[derive(Debug)]
pub struct ConfigurationRequest<'a> {
    pub serial: u32,
    pub head: &'a ZwlrOutputHeadV1,
    pub change: HeadChange<'a>,
}

/// Why a mode could not be given to a head, and the configuration begun
/// before the mode was found missing, if one was: created under the serial
/// with the head enabled in it, and not applied.
#[derive(Debug)]
pub struct SetModeFailure<'a> {
    pub error: OutputManagementHandlerError,
    pub begun: Option<(u32, &'a ZwlrOutputHeadV1)>,
}

/// A head's mode list without the given mode.
pub open spec fn without_mode(modes: Seq<ObjectKey>, id: ObjectKey) -> Seq<ObjectKey>
    decreases modes.len(),
{
    if modes.len() == 0 {
        modes
    } else {
        let rest = without_mode(modes.drop_last(), id);
        if modes.last() == id {
            rest
        } else {
            rest.push(modes.last())
        }
    }
}

fn remove_from_modes(modes: &Vec<ObjectKey>, id: ObjectKey) -> (res: Vec<ObjectKey>)
    ensures
        res@ == without_mode(modes@, id),
{
    let mut res: Vec<ObjectKey> = Vec::new();
    let mut i: usize = 0;
    while i < modes.len()
        invariant
            i <= modes.len(),
            res@ == without_mode(modes@.subrange(0, i as int), id),
        decreases modes.len() - i,
    {
        assert(modes@.subrange(0, i + 1).drop_last() =~= modes@.subrange(0, i as int));
        if modes[i] != id {
            res.push(modes[i]);
        }
        i = i + 1;
    }
    assert(modes@.subrange(0, modes@.len() as int) =~= modes@);
    res
}

/// The meta of a head announces what the head holds, under the given id.
pub open spec fn describes_head(meta: OutputHeadMeta, id: ObjectKey, head: WlOutputHeadView) -> bool {
    &&& meta.id == id
    &&& meta.adaptive_sync == head.adaptive_sync
    &&& meta.current_mode == head.current_mode
    &&& meta.description@ == head.description
    &&& meta.enabled == head.enabled
    &&& meta.height == head.height
    &&& meta.make@ == head.make
    &&& meta.model@ == head.model
    &&& meta.modes@ == head.modes
    &&& meta.name@ == head.name
    &&& meta.pos_x == head.pos_x
    &&& meta.pos_y == head.pos_y
    &&& meta.scale_bits == head.scale_bits
    &&& meta.transform == head.transform
    &&& meta.width == head.width
}

fn head_meta(id: ObjectKey, head: &WlOutputHead) -> (res: OutputHeadMeta)
    ensures
        describes_head(res, id, head@),
{
    OutputHeadMeta {
        id,
        adaptive_sync: head.adaptive_sync,
        current_mode: head.current_mode,
        description: head.description.clone(),
        enabled: head.enabled,
        height: head.height,
        make: head.make.clone(),
        model: head.model.clone(),
        modes: copy_vec(&head.modes),
        name: head.name.clone(),
        pos_x: head.pos_x,
        pos_y: head.pos_y,
        scale_bits: head.scale_bits,
        transform: head.transform,
        width: head.width,
    }
}

impl OutputManagementState {
    /// The heads by id, each by its contents.
    pub open spec fn heads_view(&self) -> Map<ObjectKey, WlOutputHeadView> {
        self.output_heads@.map_values(|h: WlOutputHead| h@)
    }

    /// A state with no head, no mode and no serial.
    pub fn new() -> (res: Self)
        ensures
            res.output_manager_serial is None,
            res.heads_view() == Map::<ObjectKey, WlOutputHeadView>::empty(),
            res.output_modes@ == Map::<ObjectKey, WlOutputMode>::empty(),
            res.mode_to_head_ids@ == Map::<ObjectKey, ObjectKey>::empty(),
    {
        let res = OutputManagementState {
            output_manager_serial: None,
            output_heads: HashMap::new(),
            output_modes: HashMap::new(),
            mode_to_head_ids: HashMap::new(),
        };
        assert(res.heads_view() =~= Map::<ObjectKey, WlOutputHeadView>::empty());
        res
    }

    /// The heads after the mode with the given id is taken off the head it
    /// belongs to: gone from its mode list, and no longer its current mode.
    pub open spec fn heads_without_mode(
        heads: Map<ObjectKey, WlOutputHeadView>,
        mode_to_head_ids: Map<ObjectKey, ObjectKey>,
        id: ObjectKey,
    ) -> Map<ObjectKey, WlOutputHeadView> {
        if mode_to_head_ids.contains_key(id) && heads.contains_key(mode_to_head_ids[id]) {
            let head_id = mode_to_head_ids[id];
            let head = heads[head_id];
            heads.insert(
                head_id,
                WlOutputHeadView {
                    current_mode: if head.current_mode == Some(id) {
                        None
                    } else {
                        head.current_mode
                    },
                    modes: without_mode(head.modes, id),
                    ..head
                },
            )
        } else {
            heads
        }
    }

    /// Takes a mode off the head it belongs to. Fails with `RemoveModeError`
    /// when the mode belongs to no head, and with `HeadNotFoundError` when its
    /// head is gone; in that case the mode no longer belongs to it.
    pub fn remove_mode(&mut self, id: ObjectKey) -> (res: Result<(), OutputManagementHandlerError>)
        ensures
            final(self).output_manager_serial == old(self).output_manager_serial,
            final(self).output_modes@ == old(self).output_modes@,
            final(self).mode_to_head_ids@ == old(self).mode_to_head_ids@.remove(id),
            final(self).heads_view() == OutputManagementState::heads_without_mode(
                old(self).heads_view(),
                old(self).mode_to_head_ids@,
                id,
            ),
            res is Err <==> !old(self).mode_to_head_ids@.contains_key(id) || !old(
                self,
            ).heads_view().contains_key(old(self).mode_to_head_ids@[id]),
            res matches Err(e) ==> if old(self).mode_to_head_ids@.contains_key(id) {
                is_failure(e, OutputManagementHandlerErrorCodes::HeadNotFoundError, "head not found"@)
            } else {
                is_failure(
                    e,
                    OutputManagementHandlerErrorCodes::RemoveModeError,
                    "remove mode failed, maybe mode not found"@,
                )
            },
    {
        broadcast use vstd::std_specs::hash::group_hash_axioms;

        let head_id = match self.mode_to_head_ids.remove(&id) {
            Some(h) => h,
            None => {
                return Err(
                    OutputManagementHandlerError::new(
                        OutputManagementHandlerErrorCodes::RemoveModeError,
                        String::from_str("remove mode failed, maybe mode not found"),
                    ),
                );
            },
        };
        let mut head = match self.output_heads.remove(&head_id) {
            Some(h) => h,
            None => {
                return Err(
                    OutputManagementHandlerError::new(
                        OutputManagementHandlerErrorCodes::HeadNotFoundError,
                        String::from_str("head not found"),
                    ),
                );
            },
        };
        let ghost before = self.heads_view();
        assert(before =~= old(self).heads_view().remove(head_id));
        if head.current_mode == Some(id) {
            head.current_mode = None;
        }
        head.modes = remove_from_modes(&head.modes, id);
        self.output_heads.insert(head_id, head);
        assert(self.heads_view() =~= OutputManagementState::heads_without_mode(
            old(self).heads_view(),
            old(self).mode_to_head_ids@,
            id,
        ));
        Ok(())
    }

    /// What is known of every head, each head once, in the order the map
    /// holds them.
    pub fn get_heads(&self) -> (res: Vec<OutputHeadMeta>)
        ensures
            res@.len() == self.heads_view().len(),
            forall|i: int|
                0 <= i < res@.len() ==> self.heads_view().contains_key(#[trigger] res@[i].id)
                    && describes_head(res@[i], res@[i].id, self.heads_view()[res@[i].id]),
            forall|id: ObjectKey| #[trigger]
                self.heads_view().contains_key(id) ==> exists|i: int|
                    0 <= i < res@.len() && #[trigger] res@[i].id == id,
            forall|i: int, j: int|
                0 <= i < res@.len() && 0 <= j < res@.len() && i != j ==> res@[i].id != res@[j].id,
    {
        broadcast use vstd::std_specs::hash::group_hash_axioms;

        let ghost items = vstd::std_specs::hash::spec_hash_map_iter(&self.output_heads).remaining();
        let ghost heads = self.output_heads@;
        let mut metas: Vec<OutputHeadMeta> = Vec::new();
        for (key, head) in it: self.output_heads.iter()
            invariant
                it.seq() == items,
                heads == self.output_heads@,
                metas@.len() == it.index(),
                forall|i: int|
                    0 <= i < it.index() ==> #[trigger] metas@[i].id == *items[i].0
                        && describes_head(metas@[i], metas@[i].id, items[i].1@),
        {
            metas.push(head_meta(*key, head));
        }
        proof {
            assert(self.heads_view().dom() =~= heads.dom());
            assert(items.len() == heads.dom().len());
            assert forall|i: int| 0 <= i < metas@.len() implies self.heads_view().contains_key(
                #[trigger] metas@[i].id,
            ) && describes_head(metas@[i], metas@[i].id, self.heads_view()[metas@[i].id]) by {
                assert(heads.contains_key(*items[i].0) && heads[*items[i].0] == *items[i].1);
            }
            assert forall|id: ObjectKey| #[trigger] self.heads_view().contains_key(id) implies exists|i: int|
                0 <= i < metas@.len() && #[trigger] metas@[i].id == id by {
                assert(heads.contains_key(id));
                assert(items.contains((&id, &heads[id])));
                let i = choose|i: int| 0 <= i < items.len() && items[i] == (&id, &heads[id]);
                assert(metas@[i].id == id);
            }
            assert forall|i: int, j: int|
                0 <= i < metas@.len() && 0 <= j < metas@.len() && i != j implies metas@[i].id != metas@[j].id by {
                if metas@[i].id == metas@[j].id {
                    assert(heads.contains_key(*items[i].0) && heads[*items[i].0] == *items[i].1);
                    assert(heads.contains_key(*items[j].0) && heads[*items[j].0] == *items[j].1);
                    assert(items[i] == items[j]);
                }
            }
        }
        metas
    }

    /// What is known of the head with the given id.
    pub fn get_head(&self, head_id: ObjectKey) -> (res: Result<OutputHeadMeta, OutputManagementHandlerError>)
        ensures
            res is Ok <==> self.heads_view().contains_key(head_id),
            res matches Ok(m) ==> describes_head(m, head_id, self.heads_view()[head_id]),
            res matches Err(e) ==> is_failure(
                e,
                OutputManagementHandlerErrorCodes::HeadNotFoundError,
                head_not_found_message(),
            ),
    {
        broadcast use vstd::std_specs::hash::group_hash_axioms;

        match self.output_heads.get(&head_id) {
            Some(head) => Ok(head_meta(head_id, head)),
            None => Err(head_not_found()),
        }
    }

    /// What is known of the mode with the given id.
    pub fn get_mode(&self, mode_id: ObjectKey) -> (res: Result<OutputModeMeta, OutputManagementHandlerError>)
        ensures
            res is Ok <==> self.output_modes@.contains_key(mode_id),
            res matches Ok(m) ==> {
                let mode = self.output_modes@[mode_id];
                &&& m.id == mode_id
                &&& m.width == mode.width
                &&& m.height == mode.height
                &&& m.refresh == mode.refresh
                &&& m.preferred == mode.preferred
            },
            res matches Err(e) ==> is_failure(
                e,
                OutputManagementHandlerErrorCodes::ModeNotFoundError,
                mode_not_found_message(),
            ),
    {
        broadcast use vstd::std_specs::hash::group_hash_axioms;

        match self.output_modes.get(&mode_id) {
            Some(mode) => Ok(
                OutputModeMeta {
                    id: mode_id,
                    width: mode.width,
                    height: mode.height,
                    refresh: mode.refresh,
                    preferred: mode.preferred,
                },
            ),
            None => Err(mode_not_found()),
        }
    }

    /// Why a configuration of the given head cannot be made, if it cannot:
    /// the manager has sent no serial yet, or the head is unknown.
    pub open spec fn config_failure(&self, head_id: ObjectKey) -> Option<OutputManagementHandlerErrorCodes> {
        if self.output_manager_serial is None {
            Some(OutputManagementHandlerErrorCodes::NoSerialManagerNotReady)
        } else if !self.heads_view().contains_key(head_id) {
            Some(OutputManagementHandlerErrorCodes::HeadNotFoundError)
        } else {
            None
        }
    }

    /// The error for a configuration of the head that cannot be made.
    pub open spec fn is_config_failure(&self, e: OutputManagementHandlerError, head_id: ObjectKey) -> bool {
        &&& self.config_failure(head_id) is Some
        &&& e.code == self.config_failure(head_id)->0
        &&& e.message@ == if e.code == OutputManagementHandlerErrorCodes::NoSerialManagerNotReady {
            no_serial_message()
        } else {
            head_not_found_message()
        }
    }

    /// A configuration request for the head with the given change, under the
    /// manager's serial.
    pub open spec fn configures(&self, head_id: ObjectKey, request: ConfigurationRequest) -> bool {
        &&& request.serial == self.output_manager_serial->0
        &&& *request.head == self.heads_view()[head_id].output_head
    }

    /// Decides whether the head can be configured: the serial to create the
    /// configuration with and the head object to enable in it.
    pub fn generate_config<'a>(&'a self, head_id: ObjectKey) -> (res: Result<(u32, &'a ZwlrOutputHeadV1), OutputManagementHandlerError>)
        ensures
            res is Err <==> self.config_failure(head_id) is Some,
            res matches Err(e) ==> self.is_config_failure(e, head_id),
            res matches Ok((serial, head)) ==> serial == self.output_manager_serial->0 && *head
                == self.heads_view()[head_id].output_head,
    {
        broadcast use vstd::std_specs::hash::group_hash_axioms;

        let serial = match self.output_manager_serial {
            Some(s) => s,
            None => {
                return Err(no_serial());
            },
        };
        match self.output_heads.get(&head_id) {
            Some(h) => Ok((serial, &h.output_head)),
            None => Err(head_not_found()),
        }
    }

    fn configure<'a>(&'a self, head_id: ObjectKey, change: HeadChange<'a>) -> (res: Result<
        ConfigurationRequest<'a>,
        OutputManagementHandlerError,
    >)
        ensures
            res is Err <==> self.config_failure(head_id) is Some,
            res matches Err(e) ==> self.is_config_failure(e, head_id),
            res matches Ok(r) ==> self.configures(head_id, r) && r.change == change,
    {
        let (serial, head) = self.generate_config(head_id)?;
        Ok(ConfigurationRequest { serial, head, change })
    }

    /// Decides a request to enable a head.
    pub fn enable_head<'a>(&'a self, head_id: ObjectKey) -> (res: Result<ConfigurationRequest<'a>, OutputManagementHandlerError>)
        ensures
            res is Err <==> self.config_failure(head_id) is Some,
            res matches Err(e) ==> self.is_config_failure(e, head_id),
            res matches Ok(r) ==> self.configures(head_id, r) && r.change == HeadChange::Enable,
    {
        self.configure(head_id, HeadChange::Enable)
    }

    /// Decides a request to disable a head.
    pub fn disable_head<'a>(&'a self, head_id: ObjectKey) -> (res: Result<ConfigurationRequest<'a>, OutputManagementHandlerError>)
        ensures
            res is Err <==> self.config_failure(head_id) is Some,
            res matches Err(e) ==> self.is_config_failure(e, head_id),
            res matches Ok(r) ==> self.configures(head_id, r) && r.change == HeadChange::Disable,
    {
        self.configure(head_id, HeadChange::Disable)
    }

    /// Decides a request to give a head one of its modes. The head is checked
    /// first: once it can be configured, a configuration is begun (created
    /// under the serial, with the head enabled in it) before the mode is
    /// looked up, so a missing mode leaves that configuration begun and
    /// unapplied.
    pub fn set_mode<'a>(&'a self, head_id: ObjectKey, mode_id: ObjectKey) -> (res: Result<ConfigurationRequest<'a>, SetModeFailure<'a>>)
        ensures
            res is Err <==> self.config_failure(head_id) is Some || !self.output_modes@.contains_key(mode_id),
            res matches Err(f) ==> if self.config_failure(head_id) is Some {
                self.is_config_failure(f.error, head_id) && f.begun is None
            } else {
                &&& is_failure(f.error, OutputManagementHandlerErrorCodes::ModeNotFoundError, mode_not_found_message())
                &&& f.begun matches Some((serial, head))
                &&& serial == self.output_manager_serial->0
                &&& *head == self.heads_view()[head_id].output_head
            },
            res matches Ok(r) ==> self.configures(head_id, r) && (r.change matches HeadChange::Mode { mode }
                && *mode == self.output_modes@[mode_id].wlr_mode),
    {
        broadcast use vstd::std_specs::hash::group_hash_axioms;

        let (serial, head) = match self.generate_config(head_id) {
            Ok(begun) => begun,
            Err(error) => {
                return Err(SetModeFailure { error, begun: None });
            },
        };
        let mode = match self.output_modes.get(&mode_id) {
            Some(m) => m,
            None => {
                return Err(SetModeFailure { error: mode_not_found(), begun: Some((serial, head)) });
            },
        };
        Ok(ConfigurationRequest { serial, head, change: HeadChange::Mode { mode: &mode.wlr_mode } })
    }

    /// Decides a request to give a head a custom mode.
    pub fn set_custom_mode<'a>(&'a self, head_id: ObjectKey, width: i32, height: i32, refresh: i32) -> (res: Result<ConfigurationRequest<'a>, OutputManagementHandlerError>)
        ensures
            res is Err <==> self.config_failure(head_id) is Some,
            res matches Err(e) ==> self.is_config_failure(e, head_id),
            res matches Ok(r) ==> self.configures(head_id, r) && r.change == (HeadChange::CustomMode { width, height, refresh }),
    {
        self.configure(head_id, HeadChange::CustomMode { width, height, refresh })
    }

    /// Decides a request to give a head a transform, named by its protocol code.
    pub fn set_transform<'a>(&'a self, head_id: ObjectKey, transform: u32) -> (res: Result<ConfigurationRequest<'a>, OutputManagementHandlerError>)
        ensures
            res is Err <==> self.config_failure(head_id) is Some,
            res matches Err(e) ==> self.is_config_failure(e, head_id),
            res matches Ok(r) ==> self.configures(head_id, r) && r.change == (HeadChange::Transform { transform }),
    {
        self.configure(head_id, HeadChange::Transform { transform })
    }

    /// Decides a request to move a head.
    pub fn set_position<'a>(&'a self, head_id: ObjectKey, x: i32, y: i32) -> (res: Result<ConfigurationRequest<'a>, OutputManagementHandlerError>)
        ensures
            res is Err <==> self.config_failure(head_id) is Some,
            res matches Err(e) ==> self.is_config_failure(e, head_id),
            res matches Ok(r) ==> self.configures(head_id, r) && r.change == (HeadChange::Position { x, y }),
    {
        self.configure(head_id, HeadChange::Position { x, y })
    }

    /// Decides a request to scale a head, the scale given by the bit pattern
    /// of its `f64` value.
    pub fn set_scale<'a>(&'a self, head_id: ObjectKey, scale_bits: u64) -> (res: Result<ConfigurationRequest<'a>, OutputManagementHandlerError>)
        ensures
            res is Err <==> self.config_failure(head_id) is Some,
            res matches Err(e) ==> self.is_config_failure(e, head_id),
            res matches Ok(r) ==> self.configures(head_id, r) && r.change == (HeadChange::Scale { scale_bits }),
    {
        self.configure(head_id, HeadChange::Scale { scale_bits })
    }

    /// Decides a request to turn a head's adaptive sync on or off.
    pub fn set_adaptive_sync<'a>(&'a self, head_id: ObjectKey, enable: bool) -> (res: Result<ConfigurationRequest<'a>, OutputManagementHandlerError>)
        ensures
            res is Err <==> self.config_failure(head_id) is Some,
            res matches Err(e) ==> self.is_config_failure(e, head_id),
            res matches Ok(r) ==> self.configures(head_id, r) && r.change == (HeadChange::AdaptiveSync {
                state: if enable { AdaptiveSyncState::Enabled } else { AdaptiveSyncState::Disabled },
            }),
    {
        let state = if enable {
            AdaptiveSyncState::Enabled
        } else {
            AdaptiveSyncState::Disabled
        };
        self.configure(head_id, HeadChange::AdaptiveSync { state })
    }
}

} // verus!
