//! Display handles, mode records, sparse updates and the display enumerator.
//!
//! A [`ModeRecord`] mirrors the managed fields of the platform's native mode
//! descriptor together with its field-presence bitmask. A [`Display`] pairs one
//! record with the display's device name and mediates reads and sparse updates.
//! A [`DisplayIterator`] holds the enumeration cursor and decides, from the
//! outcome of each device-resolution call, whether the sequence continues,
//! ends, or fails.

use vstd::prelude::*;

use crate::classify;
use crate::classify_spec;
use crate::EnumStatus;
use crate::Error;

verus! {

/// Presence bit of the mode record's position field.
pub const DM_POSITION: u32 = 0x0000_0020;

/// Presence bit of the mode record's width field.
pub const DM_PELSWIDTH: u32 = 0x0008_0000;

/// Presence bit of the mode record's height field.
pub const DM_PELSHEIGHT: u32 = 0x0010_0000;

/// Presence bit of the mode record's refresh-rate field.
pub const DM_DISPLAYFREQUENCY: u32 = 0x0040_0000;

/// The platform's status for an unconditionally successful mode-change commit;
/// every other status is a rejection.
pub const DISP_CHANGE_SUCCESSFUL: i32 = 0;

/// The managed fields of the platform's mode descriptor: a field-presence
/// bitmask plus refresh rate, resolution and position. A record is populated
/// from a platform settings query and mutated in place by sparse updates.
#[derive(Debug, Clone, Copy, PartialEq, Eq)]
pub struct ModeRecord {
    /// Field-presence bitmask: which fields the next commit asks the platform
    /// to read.
    pub fields: u32,
    /// Refresh rate in hertz.
    pub refresh_rate: u32,
    /// Horizontal resolution in pixels.
    pub width: u32,
    /// Vertical resolution in pixels.
    pub height: u32,
    /// Horizontal position of the display.
    pub x: i32,
    /// Vertical position of the display.
    pub y: i32,
}

/// A sparse configuration request: each `None` field means "leave unchanged".
#[derive(Debug, Clone, Copy, PartialEq, Eq)]
pub struct DisplayConfig {
    /// Desired refresh rate in hertz, if any.
    pub refresh_rate: Option<u32>,
    /// Desired position, if any. The pair is atomic: there is no way to request
    /// one coordinate without the other.
    pub position: Option<(i32, i32)>,
    /// Desired resolution, if any.
    pub size: Option<(u32, u32)>,
}

impl ModeRecord {
    /// The record after a sparse request is merged in: each present field of
    /// the request overwrites the record's value and raises its presence bit;
    /// absent fields and their bits are left exactly as they were.
    pub open spec fn merged(self, c: DisplayConfig) -> ModeRecord {
        let m1 = match c.refresh_rate {
            Some(r) => ModeRecord {
                fields: self.fields | DM_DISPLAYFREQUENCY,
                refresh_rate: r,
                ..self
            },
            None => self,
        };
        let m2 = match c.size {
            Some(s) => ModeRecord {
                fields: m1.fields | DM_PELSWIDTH | DM_PELSHEIGHT,
                width: s.0,
                height: s.1,
                ..m1
            },
            None => m1,
        };
        match c.position {
            Some(p) => ModeRecord { fields: m2.fields | DM_POSITION, x: p.0, y: p.1, ..m2 },
            None => m2,
        }
    }

    /// Merge a sparse request into this record.
    pub fn merge(&mut self, config: &DisplayConfig)
        ensures
            *final(self) == old(self).merged(*config),
    {
        if let Some(refresh_rate) = config.refresh_rate {
            self.fields = self.fields | DM_DISPLAYFREQUENCY;
            self.refresh_rate = refresh_rate;
        }
        if let Some(size) = config.size {
            self.fields = self.fields | DM_PELSWIDTH | DM_PELSHEIGHT;
            self.width = size.0;
            self.height = size.1;
        }
        if let Some(position) = config.position {
            self.fields = self.fields | DM_POSITION;
            self.x = position.0;
            self.y = position.1;
        }
    }
}

/// A field absent from a sparse request keeps its last-queried value through a
/// merge: merging never clobbers what the request does not mention.
pub proof fn lemma_merge_preserves_absent_fields(m: ModeRecord, c: DisplayConfig)
    ensures
        c.refresh_rate is None ==> m.merged(c).refresh_rate == m.refresh_rate,
        c.size is None ==> m.merged(c).width == m.width && m.merged(c).height == m.height,
        c.position is None ==> m.merged(c).x == m.x && m.merged(c).y == m.y,
{
}

/// A request with every field absent merges to the identical record, so
/// applying it re-commits the currently held state unchanged.
pub proof fn lemma_empty_request_is_noop(m: ModeRecord, c: DisplayConfig)
    requires
        c.refresh_rate is None,
        c.size is None,
        c.position is None,
    ensures
        m.merged(c) == m,
{
}

impl DisplayConfig {
    /// Build a request from individually given fields, as the command surface
    /// receives them, against the selected display's last-queried size.
    ///
    /// A request giving exactly one of `x`/`y` is invalid and yields `None`
    /// before any platform call is made. Otherwise the resolution is always
    /// requested, with a width or height that was not given defaulting to the
    /// display's last-queried value, so unspecified fields keep their current
    /// values rather than falling to zero.
    pub fn from_options(
        refresh_rate: Option<u32>,
        width: Option<u32>,
        height: Option<u32>,
        x: Option<i32>,
        y: Option<i32>,
        current_size: (u32, u32),
    ) -> (r: Option<DisplayConfig>)
        ensures
            ((x is Some) != (y is Some)) ==> r is None,
            ((x is Some) == (y is Some)) ==> ({
                &&& r matches Some(c)
                &&& c.refresh_rate == refresh_rate
                &&& c.size == Some(requested_size(width, height, current_size))
                &&& c.position == requested_position(x, y)
            }),
    {
        if x.is_some() != y.is_some() {
            return None;
        }
        let position: Option<(i32, i32)> = match (x, y) {
            (Some(a), Some(b)) => Some((a, b)),
            _ => None,
        };
        let w: u32 = match width {
            Some(w) => w,
            None => current_size.0,
        };
        let h: u32 = match height {
            Some(h) => h,
            None => current_size.1,
        };
        Some(DisplayConfig { refresh_rate, position, size: Some((w, h)) })
    }
}

/// The resolution a request asks for: each coordinate that was given, with the
/// last-queried value filling in the other.
pub open spec fn requested_size(width: Option<u32>, height: Option<u32>, current: (u32, u32)) -> (
    u32,
    u32,
) {
    (
        match width {
            Some(w) => w,
            None => current.0,
        },
        match height {
            Some(h) => h,
            None => current.1,
        },
    )
}

/// The position a request asks for: only a full pair is a position request.
pub open spec fn requested_position(x: Option<i32>, y: Option<i32>) -> Option<(i32, i32)> {
    match (x, y) {
        (Some(a), Some(b)) => Some((a, b)),
        _ => None,
    }
}

/// The abstract value of a display handle: its device name and the mode record
/// it last queried or merged.
pub struct DisplayView {
    /// The display's device name.
    pub name: Seq<char>,
    /// The held mode record.
    pub mode: ModeRecord,
}

/// One display's configuration: the device name together with the mode record
/// from the platform's settings query, mutated in place by sparse updates.
#[derive(Debug, Clone)]
pub struct Display {
    name: String,
    mode: ModeRecord,
}

impl View for Display {
    type V = DisplayView;

    closed spec fn view(&self) -> DisplayView {
        DisplayView { name: self.name@, mode: self.mode }
    }
}

impl Display {
    /// Build a handle from the outcome of the platform's current-settings query
    /// for `name`: a queried mode record, or the native status code of the
    /// failed query, which is surfaced unchanged as the error.
    pub fn new(name: String, query: Result<ModeRecord, i32>) -> (r: Result<Display, Error>)
        ensures
            match query {
                Ok(m) => r matches Ok(d) && d@ == (DisplayView { name: name@, mode: m }),
                Err(code) => r == Err::<Display, Error>(Error::Win32(code)),
            },
    {
        match query {
            Ok(mode) => Ok(Display { name, mode }),
            Err(code) => Err(Error::Win32(code)),
        }
    }

    /// Refresh rate of the display in hertz. This value may be out of date.
    pub fn refresh_rate(&self) -> (r: u32)
        ensures
            r == self@.mode.refresh_rate,
    {
        self.mode.refresh_rate
    }

    /// Size of the display. This value may be out of date.
    pub fn size(&self) -> (s: (u32, u32))
        ensures
            s.0 == self@.mode.width,
            s.1 == self@.mode.height,
    {
        (self.mode.width, self.mode.height)
    }

    /// Name of the display. This value may be out of date.
    pub fn name(&self) -> (n: &String)
        ensures
            n@ == self@.name,
    {
        &self.name
    }

    /// The currently held mode record.
    pub fn mode(&self) -> (m: ModeRecord)
        ensures
            m == self@.mode,
    {
        self.mode
    }

    /// Merge a sparse request into the held mode record and hand back the
    /// merged record, which the caller commits to the platform. The merge
    /// happens before any commit: after a rejected commit the handle still
    /// holds the merged — intended, not actual — values.
    pub fn update(&mut self, config: &DisplayConfig) -> (m: ModeRecord)
        ensures
            final(self)@.name == old(self)@.name,
            final(self)@.mode == old(self)@.mode.merged(*config),
            m == final(self)@.mode,
    {
        self.mode.merge(config);
        self.mode
    }

    /// Interpret the platform's status from a mode-change commit: anything but
    /// unconditional success is a rejection, surfaced with the native code that
    /// the platform reported alongside it.
    pub fn commit_outcome(status: i32, os_code: i32) -> (r: Result<(), Error>)
        ensures
            status == DISP_CHANGE_SUCCESSFUL ==> r is Ok,
            status != DISP_CHANGE_SUCCESSFUL ==> r == Err::<(), Error>(Error::Win32(os_code)),
    {
        if status == DISP_CHANGE_SUCCESSFUL {
            Ok(())
        } else {
            Err(Error::Win32(os_code))
        }
    }
}

/// One element of the enumeration sequence: the next device's name, the normal
/// end of the sequence, or a terminal failure.
#[derive(Debug, PartialEq, Eq)]
pub enum EnumStep {
    /// The cursor's index resolved to this device name; the settings query for
    /// it follows.
    Device(String),
    /// The index had no device: the sequence ends; this is not an error.
    Done,
    /// The resolution failed for a reason other than list exhaustion.
    Fail(Error),
}

/// A restartable, lazy producer of the attached displays: it holds the
/// enumeration cursor, which starts at 0 and advances by one for each
/// successfully resolved device.
#[derive(Debug)]
pub struct DisplayIterator {
    index: u32,
}

/// How one pull of the enumerator relates the cursor before (`i0`) and after
/// (`i1`) to the outcome of resolving index `i0` and the element produced:
/// a resolved name is yielded and consumes the index; the invalid-handle code
/// ends the sequence; any other code is a failure element; in the latter two
/// cases the cursor does not move.
pub open spec fn step_spec(i0: u32, resolve: Result<String, i32>, i1: u32, s: EnumStep) -> bool {
    match resolve {
        Ok(name) => i1 == i0 + 1 && s == EnumStep::Device(name),
        Err(code) => i1 == i0 && (if classify_spec(code) == EnumStatus::EndOfEnumeration {
            s == EnumStep::Done
        } else {
            s == EnumStep::Fail(Error::Win32(code))
        }),
    }
}

impl DisplayIterator {
    /// The cursor: the next enumeration index to resolve.
    pub closed spec fn spec_index(&self) -> u32 {
        self.index
    }

    /// A fresh enumerator, starting at index 0. Enumerators do not share
    /// cursor state.
    pub fn new() -> (it: DisplayIterator)
        ensures
            it.spec_index() == 0,
    {
        DisplayIterator { index: 0 }
    }

    /// The next enumeration index this enumerator will resolve.
    pub fn current_index(&self) -> (i: u32)
        ensures
            i == self.spec_index(),
    {
        self.index
    }

    /// Advance on the outcome of resolving the cursor's index to a device
    /// name. A resolved name consumes the index — even if the settings query
    /// made for it afterwards fails, the next pull proceeds from the next
    /// index. The invalid-handle status ends the sequence; every other status
    /// yields a terminal failure element.
    pub fn step(&mut self, resolve: Result<String, i32>) -> (s: EnumStep)
        requires
            old(self).spec_index() < u32::MAX,
        ensures
            step_spec(old(self).spec_index(), resolve, final(self).spec_index(), s),
    {
        match resolve {
            Ok(name) => {
                self.index = self.index + 1;
                EnumStep::Device(name)
            },
            Err(code) => match classify(code) {
                EnumStatus::EndOfEnumeration => EnumStep::Done,
                EnumStatus::PlatformFailure(c) => EnumStep::Fail(Error::Win32(c)),
            },
        }
    }
}

/// What the platform's device-resolution call reports while the displays named
/// in `devs` are attached: each index below `devs.len()` resolves to that
/// device's name, and every index at or past the end fails with the
/// invalid-handle status.
pub open spec fn resolve_of_snapshot(
    devs: Seq<Seq<char>>,
    i: u32,
    resolve: Result<String, i32>,
) -> bool {
    if (i as int) < devs.len() {
        resolve matches Ok(n) && n@ == devs[i as int]
    } else {
        resolve == Err::<String, i32>(crate::ERROR_INVALID_HANDLE)
    }
}

/// Enumerator invariant: against a platform with the displays `devs` attached,
/// every pull at an index below `devs.len()` yields exactly the device at that
/// index and advances the cursor by one, and every pull at or past `devs.len()`
/// ends the sequence rather than failing. Starting from index 0, the sequence
/// therefore has exactly `devs.len()` elements, and pulling past the end never
/// raises an error.
pub proof fn lemma_enumeration_bounds(
    devs: Seq<Seq<char>>,
    i: u32,
    resolve: Result<String, i32>,
    j: u32,
    s: EnumStep,
)
    requires
        resolve_of_snapshot(devs, i, resolve),
        step_spec(i, resolve, j, s),
    ensures
        (i as int) < devs.len() ==> ({
            &&& s matches EnumStep::Device(n)
            &&& n@ == devs[i as int]
            &&& j == i + 1
        }),
        (i as int) >= devs.len() ==> s == EnumStep::Done && j == i,
{
}

/// Round-trip fidelity: a handle built from a successful settings query reports
/// through `size`, `refresh_rate` and `name` exactly the queried mode's width,
/// height and frequency and the queried name.
pub proof fn lemma_query_round_trip(name: Seq<char>, m: ModeRecord, v: DisplayView)
    requires
        v == (DisplayView { name: name, mode: m }),
    ensures
        v.mode.width == m.width,
        v.mode.height == m.height,
        v.mode.refresh_rate == m.refresh_rate,
        v.name == name,
{
}

} // verus!
