//! Light entity store: the set of point-light records and the single
//! ambient-light record, with creation, duplication, renaming and
//! per-frame field write-back.
//!
//! Numeric light parameters (position, intensity, radius, falloff,
//! brightness) are carried as opaque 32-bit scalar codes supplied by the
//! widget layer; the store copies and overwrites them without
//! interpreting them, so no range is enforced here — out-of-range entry
//! is accepted silently by design.  Colors are carried as exact
//! unit-interval ratios (see [`crate::color`]).

use crate::color::{color_of_edit, from_edit, full_bright, EditColor, LinearColor};
use crate::names::{duplicate_name, duplicate_name_of, spotlight_name, spotlight_name_of};
use vstd::prelude::*;

verus! {

/// Scalar code of the origin coordinate (the widget layer's encoding of
/// zero).
pub const ORIGIN_CODE: u32 = 0;

/// Scalar code of a freshly spawned light's intensity (the widget
/// layer's encoding of five).
pub const DEFAULT_INTENSITY_CODE: u32 = 0x40A0_0000;

/// Scalar code of a freshly spawned light's radius (the widget layer's
/// encoding of thirty-two).
pub const DEFAULT_RADIUS_CODE: u32 = 0x4200_0000;

/// Scalar code of a freshly spawned light's falloff (the widget layer's
/// encoding of zero).
pub const DEFAULT_FALLOFF_CODE: u32 = 0;

/// Scalar code of the ambient record's starting brightness (the widget
/// layer's encoding of one).
pub const DEFAULT_AMBIENT_BRIGHTNESS_CODE: u32 = 0x3F80_0000;

/// One point light: its editable parameters, its committed display name
/// and the in-progress rename draft.
pub struct PointLight {
    pub position_x: u32,
    pub position_y: u32,
    pub intensity: u32,
    pub radius: u32,
    pub falloff: u32,
    pub color: LinearColor,
    pub display_name: String,
    pub edit_buffer: String,
}

/// The single ambient-light record.
#[derive(Clone, Copy, PartialEq, Eq, Structural, Debug)]
pub struct AmbientLight {
    pub brightness: u32,
    pub color: LinearColor,
}

/// Mathematical model of one point light.
#[verifier::ext_equal]
pub struct LightModel {
    pub position_x: u32,
    pub position_y: u32,
    pub intensity: u32,
    pub radius: u32,
    pub falloff: u32,
    pub color: LinearColor,
    pub name: Seq<char>,
    pub buffer: Seq<char>,
}

impl View for PointLight {
    type V = LightModel;

    open spec fn view(&self) -> LightModel {
        LightModel {
            position_x: self.position_x,
            position_y: self.position_y,
            intensity: self.intensity,
            radius: self.radius,
            falloff: self.falloff,
            color: self.color,
            name: self.display_name@,
            buffer: self.edit_buffer@,
        }
    }
}

/// Mathematical model of the whole store.
#[verifier::ext_equal]
pub struct StoreModel {
    pub lights: Seq<LightModel>,
    pub ambient: AmbientLight,
}

/// The store: all point lights, in creation order, plus the ambient
/// record.  Lights are never removed.
pub struct LightStore {
    pub lights: Vec<PointLight>,
    pub ambient: AmbientLight,
}

impl View for LightStore {
    type V = StoreModel;

    open spec fn view(&self) -> StoreModel {
        StoreModel {
            lights: self.lights@.map_values(|p: PointLight| p@),
            ambient: self.ambient,
        }
    }
}

/// The model of a light spawned while `count` point lights exist: fixed
/// default parameters, full-bright color, display name
/// `"Spotlight <count + 1>"`, and a draft buffer equal to the name.
pub open spec fn spawned_light(count: nat) -> LightModel {
    LightModel {
        position_x: ORIGIN_CODE,
        position_y: ORIGIN_CODE,
        intensity: DEFAULT_INTENSITY_CODE,
        radius: DEFAULT_RADIUS_CODE,
        falloff: DEFAULT_FALLOFF_CODE,
        color: full_bright(),
        name: spotlight_name_of(count + 1),
        buffer: spotlight_name_of(count + 1),
    }
}

/// The model of a light duplicated from `src` while `count` point lights
/// exist: every parameter copied, display name
/// `"<source name> <count>"` — the count before duplication, one less
/// than the spawn rule's ordinal; the asymmetry is observable editor
/// behavior and is kept as is.
pub open spec fn duplicated_light(src: LightModel, count: nat) -> LightModel {
    LightModel {
        name: duplicate_name_of(src.name, count),
        buffer: duplicate_name_of(src.name, count),
        ..src
    }
}

/// `l` with its rename draft buffer overwritten.
pub open spec fn light_with_buffer(l: LightModel, t: Seq<char>) -> LightModel {
    LightModel { buffer: t, ..l }
}

/// A rename commits exactly when the control lost focus and the draft
/// buffer differs from the committed name.
pub open spec fn rename_commits(l: LightModel, lost_focus: bool) -> bool {
    lost_focus && l.buffer != l.name
}

/// `l` after the rename-commit decision: on commit the buffer becomes
/// the display name (re-synchronizing the two); otherwise the light is
/// unchanged and the buffer stays free-form draft text.
pub open spec fn light_after_rename(l: LightModel, lost_focus: bool) -> LightModel {
    if rename_commits(l, lost_focus) {
        LightModel { name: l.buffer, ..l }
    } else {
        l
    }
}

impl LightStore {
    /// An empty scene: no point lights; ambient at its starting
    /// brightness with full-bright color.
    pub fn new() -> (s: LightStore)
        ensures
            s@.lights == Seq::<LightModel>::empty(),
            s@.ambient == (AmbientLight {
                brightness: DEFAULT_AMBIENT_BRIGHTNESS_CODE,
                color: full_bright(),
            }),
    {
        let s = LightStore {
            lights: Vec::new(),
            ambient: AmbientLight {
                brightness: DEFAULT_AMBIENT_BRIGHTNESS_CODE,
                color: from_edit(EditColor { red: 255, green: 255, blue: 255 }),
            },
        };
        proof {
            assert(s@.lights =~= Seq::<LightModel>::empty());
        }
        s
    }

    /// The number of point lights in the store.
    pub fn count(&self) -> (n: usize)
        ensures
            n == self@.lights.len(),
    {
        self.lights.len()
    }

    /// Create a point light with the fixed defaults and display name
    /// `"Spotlight <N + 1>"`, where `N` is the pre-spawn count of point
    /// lights; returns its identifier.
    pub fn spawn_point_light(&mut self) -> (id: usize)
        requires
            old(self)@.lights.len() < usize::MAX,
        ensures
            id == old(self)@.lights.len(),
            final(self)@.lights == old(self)@.lights.push(spawned_light(old(self)@.lights.len())),
            final(self)@.ambient == old(self)@.ambient,
    {
        let n = self.lights.len();
        let name = spotlight_name(n as u64 + 1);
        let draft = name.clone();
        self.lights.push(
            PointLight {
                position_x: ORIGIN_CODE,
                position_y: ORIGIN_CODE,
                intensity: DEFAULT_INTENSITY_CODE,
                radius: DEFAULT_RADIUS_CODE,
                falloff: DEFAULT_FALLOFF_CODE,
                color: from_edit(EditColor { red: 255, green: 255, blue: 255 }),
                display_name: name,
                edit_buffer: draft,
            },
        );
        proof {
            assert(self@.lights =~= old(self)@.lights.push(
                spawned_light(old(self)@.lights.len()),
            ));
        }
        n
    }

    /// Duplicate light `id`: every parameter and the color are copied;
    /// the new display name is `"<source name> <N>"`, where `N` is the
    /// pre-duplicate count of point lights; returns the new identifier.
    pub fn duplicate(&mut self, id: usize) -> (new_id: usize)
        requires
            id < old(self)@.lights.len(),
            old(self)@.lights.len() < usize::MAX,
        ensures
            new_id == old(self)@.lights.len(),
            final(self)@.lights == old(self)@.lights.push(
                duplicated_light(old(self)@.lights[id as int], old(self)@.lights.len()),
            ),
            final(self)@.ambient == old(self)@.ambient,
    {
        let n = self.lights.len();
        let src = &self.lights[id];
        let name = duplicate_name(&src.display_name, n as u64);
        let draft = name.clone();
        let copy = PointLight {
            position_x: src.position_x,
            position_y: src.position_y,
            intensity: src.intensity,
            radius: src.radius,
            falloff: src.falloff,
            color: src.color,
            display_name: name,
            edit_buffer: draft,
        };
        self.lights.push(copy);
        proof {
            assert(self@.lights =~= old(self)@.lights.push(
                duplicated_light(old(self)@.lights[id as int], old(self)@.lights.len()),
            ));
        }
        n
    }

    /// Overwrite the rename draft buffer of light `id` with the text the
    /// panel's text field holds after this frame's editing.  The
    /// committed display name is untouched.
    pub fn set_edit_buffer(&mut self, id: usize, text: String)
        requires
            id < old(self)@.lights.len(),
        ensures
            final(self)@.lights == old(self)@.lights.update(
                id as int,
                light_with_buffer(old(self)@.lights[id as int], text@),
            ),
            final(self)@.ambient == old(self)@.ambient,
    {
        self.lights[id].edit_buffer = text;
        proof {
            assert(self@.lights =~= old(self)@.lights.update(
                id as int,
                light_with_buffer(old(self)@.lights[id as int], text@),
            ));
        }
    }

    /// Decide a rename for light `id`: commits exactly when the control
    /// lost focus and the draft buffer differs from the committed name;
    /// on commit the buffer becomes the display name.  Returns whether a
    /// rename committed.
    pub fn commit_rename(&mut self, id: usize, lost_focus: bool) -> (renamed: bool)
        requires
            id < old(self)@.lights.len(),
        ensures
            renamed == rename_commits(old(self)@.lights[id as int], lost_focus),
            final(self)@.lights == old(self)@.lights.update(
                id as int,
                light_after_rename(old(self)@.lights[id as int], lost_focus),
            ),
            final(self)@.ambient == old(self)@.ambient,
    {
        let mut renamed = false;
        if lost_focus {
            if !(self.lights[id].edit_buffer == self.lights[id].display_name) {
                let committed = self.lights[id].edit_buffer.clone();
                self.lights[id].display_name = committed;
                renamed = true;
            }
        }
        proof {
            assert(self@.lights =~= old(self)@.lights.update(
                id as int,
                light_after_rename(old(self)@.lights[id as int], lost_focus),
            ));
        }
        renamed
    }

    /// Unconditional overwrite of light `id`'s position.
    pub fn set_position(&mut self, id: usize, x: u32, y: u32)
        requires
            id < old(self)@.lights.len(),
        ensures
            final(self)@.lights == old(self)@.lights.update(
                id as int,
                (LightModel { position_x: x, position_y: y, ..old(self)@.lights[id as int] }),
            ),
            final(self)@.ambient == old(self)@.ambient,
    {
        self.lights[id].position_x = x;
        self.lights[id].position_y = y;
        proof {
            assert(self@.lights =~= old(self)@.lights.update(
                id as int,
                (LightModel { position_x: x, position_y: y, ..old(self)@.lights[id as int] }),
            ));
        }
    }

    /// Unconditional overwrite of light `id`'s intensity.
    pub fn set_intensity(&mut self, id: usize, value: u32)
        requires
            id < old(self)@.lights.len(),
        ensures
            final(self)@.lights == old(self)@.lights.update(
                id as int,
                (LightModel { intensity: value, ..old(self)@.lights[id as int] }),
            ),
            final(self)@.ambient == old(self)@.ambient,
    {
        self.lights[id].intensity = value;
        proof {
            assert(self@.lights =~= old(self)@.lights.update(
                id as int,
                (LightModel { intensity: value, ..old(self)@.lights[id as int] }),
            ));
        }
    }

    /// Unconditional overwrite of light `id`'s radius.
    pub fn set_radius(&mut self, id: usize, value: u32)
        requires
            id < old(self)@.lights.len(),
        ensures
            final(self)@.lights == old(self)@.lights.update(
                id as int,
                (LightModel { radius: value, ..old(self)@.lights[id as int] }),
            ),
            final(self)@.ambient == old(self)@.ambient,
    {
        self.lights[id].radius = value;
        proof {
            assert(self@.lights =~= old(self)@.lights.update(
                id as int,
                (LightModel { radius: value, ..old(self)@.lights[id as int] }),
            ));
        }
    }

    /// Unconditional overwrite of light `id`'s falloff.
    pub fn set_falloff(&mut self, id: usize, value: u32)
        requires
            id < old(self)@.lights.len(),
        ensures
            final(self)@.lights == old(self)@.lights.update(
                id as int,
                (LightModel { falloff: value, ..old(self)@.lights[id as int] }),
            ),
            final(self)@.ambient == old(self)@.ambient,
    {
        self.lights[id].falloff = value;
        proof {
            assert(self@.lights =~= old(self)@.lights.update(
                id as int,
                (LightModel { falloff: value, ..old(self)@.lights[id as int] }),
            ));
        }
    }

    /// Overwrite light `id`'s color with the linear color decoded from
    /// the panel's 8-bit editing value, reapplying the codec's floor
    /// rule.
    pub fn set_color_from_edit(&mut self, id: usize, edit: EditColor)
        requires
            id < old(self)@.lights.len(),
        ensures
            final(self)@.lights == old(self)@.lights.update(
                id as int,
                (LightModel { color: color_of_edit(edit), ..old(self)@.lights[id as int] }),
            ),
            final(self)@.ambient == old(self)@.ambient,
    {
        let c = from_edit(edit);
        self.lights[id].color = c;
        proof {
            assert(self@.lights =~= old(self)@.lights.update(
                id as int,
                (LightModel { color: color_of_edit(edit), ..old(self)@.lights[id as int] }),
            ));
        }
    }

    /// Per-frame write-back of the ambient record: brightness and color
    /// are overwritten whether or not the user interacted this frame;
    /// the color is rebuilt from the panel's 8-bit editing value.
    pub fn set_ambient(&mut self, brightness: u32, color_edit: EditColor)
        ensures
            final(self)@.lights == old(self)@.lights,
            final(self)@.ambient == (AmbientLight {
                brightness,
                color: color_of_edit(color_edit),
            }),
    {
        let c = from_edit(color_edit);
        self.ambient = AmbientLight { brightness, color: c };
    }
}

/// The store transition of one spawn.
pub open spec fn spawn_transition(s: Seq<LightModel>) -> Seq<LightModel> {
    s.push(spawned_light(s.len()))
}

/// The lights after `n` spawns from an empty store.
pub open spec fn spawned_n_times(n: nat) -> Seq<LightModel>
    decreases n,
{
    if n == 0 {
        Seq::empty()
    } else {
        spawn_transition(spawned_n_times((n - 1) as nat))
    }
}

/// Spawning `n` lights sequentially from an empty store yields the
/// display names `"Spotlight 1"` through `"Spotlight n"`, in order.
pub proof fn lemma_sequential_spawn_names(n: nat)
    ensures
        spawned_n_times(n).len() == n,
        forall|i: int|
            0 <= i < n ==> (#[trigger] spawned_n_times(n)[i]).name == spotlight_name_of(
                (i + 1) as nat,
            ),
    decreases n,
{
    if n > 0 {
        lemma_sequential_spawn_names((n - 1) as nat);
    }
}

/// Rename discipline: typing into the draft buffer without losing focus
/// commits no rename and never changes the committed display name; and
/// losing focus with an unchanged buffer commits no rename and leaves
/// the light exactly as it is.
pub proof fn lemma_rename_commit_discipline(l: LightModel, t: Seq<char>)
    ensures
        !rename_commits(light_with_buffer(l, t), false),
        light_after_rename(light_with_buffer(l, t), false).name == l.name,
        l.buffer == l.name ==> !rename_commits(l, true) && light_after_rename(l, true) == l,
{
}

} // verus!
