//! Editor panel synchronizer: the per-frame reconciliation between the
//! widget layer and the scene.
//!
//! Each frame the unverified widget layer draws the panel and reports
//! what its controls hold and what was clicked.  This module applies
//! that report: unconditional write-back of the camera, ambient and
//! per-light fields (colors are rebuilt from their 8-bit editing values
//! every frame, reapplying the codec's floor rule whether or not the
//! user interacted), the rename-commit decision per light, and then the
//! collected intents — strictly after the per-light pass and in a fixed
//! order: duplicates in light order, then spawn, then the open request —
//! so the light collection never changes while it is being walked.

use crate::color::{color_of_edit, edit_of_color, lemma_edit_quantize_identity, EditColor};
use crate::session::{SceneSession, SessionPhase};
use crate::store::{
    duplicated_light, light_after_rename, light_with_buffer, spawn_transition, AmbientLight,
    LightModel, LightStore, ORIGIN_CODE,
};
use vstd::prelude::*;

verus! {

/// Scalar code of the starting zoom (the widget layer's encoding of
/// one).
pub const DEFAULT_ZOOM_CODE: u32 = 0x3F80_0000;

/// Camera framing, bound two-way to the panel's sliders.  Values may be
/// set outside the sliders' nominal range by direct numeric entry; they
/// are written back unclamped by design.
#[derive(Clone, Copy, PartialEq, Eq, Structural, Debug)]
pub struct CameraView {
    pub position_x: u32,
    pub position_y: u32,
    pub zoom: u32,
}

impl CameraView {
    /// The starting framing: origin position, unit zoom.
    pub fn new() -> (c: CameraView)
        ensures
            c == (CameraView {
                position_x: ORIGIN_CODE,
                position_y: ORIGIN_CODE,
                zoom: DEFAULT_ZOOM_CODE,
            }),
    {
        CameraView {
            position_x: ORIGIN_CODE,
            position_y: ORIGIN_CODE,
            zoom: DEFAULT_ZOOM_CODE,
        }
    }
}

/// What the widgets of one light's panel block reported this frame.
pub struct LightEdit {
    /// The rename text field's content after this frame's editing.
    pub buffer_text: String,
    /// Whether the rename text field lost focus this frame.
    pub lost_focus: bool,
    /// Whether this light's Duplicate control was clicked this frame.
    pub duplicate_clicked: bool,
    pub position_x: u32,
    pub position_y: u32,
    pub intensity: u32,
    pub radius: u32,
    pub falloff: u32,
    /// The color widget's 8-bit value after this frame's editing.
    pub color_edit: EditColor,
}

/// Mathematical model of one light's panel report.
#[verifier::ext_equal]
pub struct EditModel {
    pub text: Seq<char>,
    pub lost_focus: bool,
    pub duplicate_clicked: bool,
    pub position_x: u32,
    pub position_y: u32,
    pub intensity: u32,
    pub radius: u32,
    pub falloff: u32,
    pub color_edit: EditColor,
}

impl View for LightEdit {
    type V = EditModel;

    open spec fn view(&self) -> EditModel {
        EditModel {
            text: self.buffer_text@,
            lost_focus: self.lost_focus,
            duplicate_clicked: self.duplicate_clicked,
            position_x: self.position_x,
            position_y: self.position_y,
            intensity: self.intensity,
            radius: self.radius,
            falloff: self.falloff,
            color_edit: self.color_edit,
        }
    }
}

/// Everything the panel reported for one frame.
pub struct FrameInput {
    /// The Open control was clicked (it is only drawn before a load).
    pub open_clicked: bool,
    /// The Spawn control was clicked.
    pub spawn_clicked: bool,
    /// The camera controls' values after this frame's editing.
    pub camera: CameraView,
    /// The ambient brightness control's value after this frame.
    pub ambient_brightness: u32,
    /// The ambient color widget's 8-bit value after this frame.
    pub ambient_color_edit: EditColor,
    /// One entry per existing light, in store order.
    pub light_edits: Vec<LightEdit>,
}

pub open spec fn edits_view(v: Seq<LightEdit>) -> Seq<EditModel> {
    v.map_values(|e: LightEdit| e@)
}

/// One light after the per-frame write-back of its block's widgets: the
/// draft buffer is overwritten with the field's text, the rename-commit
/// decision is taken against the pre-frame name, and the numeric fields
/// and the color are overwritten unconditionally.
pub open spec fn light_after_edit(
    l: LightModel,
    e: EditModel,
) -> LightModel {
    LightModel {
        position_x: e.position_x,
        position_y: e.position_y,
        intensity: e.intensity,
        radius: e.radius,
        falloff: e.falloff,
        color: color_of_edit(e.color_edit),
        ..light_after_rename(light_with_buffer(l, e.text), e.lost_focus)
    }
}

pub open spec fn lights_after_edits(
    s: Seq<LightModel>,
    es: Seq<EditModel>,
) -> Seq<LightModel> {
    Seq::new(s.len(), |i: int| light_after_edit(s[i], es[i]))
}

/// The duplicates appended by the intents of `es[i..]`, in light order,
/// each named with the count of lights at the moment it is applied.
pub open spec fn lights_after_duplicates(
    s: Seq<LightModel>,
    es: Seq<EditModel>,
    i: int,
) -> Seq<LightModel>
    decreases es.len() - i,
{
    if i < 0 || i >= es.len() {
        s
    } else {
        let next = if es[i].duplicate_clicked {
            s.push(duplicated_light(s[i], s.len()))
        } else {
            s
        };
        lights_after_duplicates(next, es, i + 1)
    }
}

pub open spec fn lights_after_spawn(
    s: Seq<LightModel>,
    clicked: bool,
) -> Seq<LightModel> {
    if clicked {
        spawn_transition(s)
    } else {
        s
    }
}

/// The whole frame's effect on the light collection: per-light
/// write-back, then the duplicate intents, then the spawn intent.
pub open spec fn frame_lights(
    s: Seq<LightModel>,
    es: Seq<EditModel>,
    spawn_clicked: bool,
) -> Seq<LightModel> {
    lights_after_spawn(lights_after_duplicates(lights_after_edits(s, es), es, 0), spawn_clicked)
}

/// `e` merely echoes `l`: every control holds the value it is bound to,
/// nothing was clicked, focus was kept, and the color widget holds the
/// quantization of `l`'s color.
pub open spec fn echoes(l: LightModel, e: EditModel) -> bool {
    &&& e.text == l.buffer
    &&& !e.lost_focus
    &&& !e.duplicate_clicked
    &&& e.position_x == l.position_x
    &&& e.position_y == l.position_y
    &&& e.intensity == l.intensity
    &&& e.radius == l.radius
    &&& e.falloff == l.falloff
    &&& e.color_edit == edit_of_color(l.color)
}

proof fn lemma_no_duplicate_intents(s: Seq<LightModel>, es: Seq<EditModel>, i: int)
    requires
        forall|j: int| i <= j < es.len() ==> !(#[trigger] es[j]).duplicate_clicked,
    ensures
        lights_after_duplicates(s, es, i) == s,
    decreases es.len() - i,
{
    if 0 <= i < es.len() {
        lemma_no_duplicate_intents(s, es, i + 1);
    }
}

/// An idle frame is a fixed point of the per-frame write-back: when
/// every widget merely echoes the light it is bound to, no intent is
/// raised, and every color in the store has already been through the
/// 8-bit editing boundary once, the frame — with its re-applied floor
/// rule — changes nothing.  This is what makes the panel's continuous
/// write-back of colors safe.
pub proof fn lemma_idle_frame_fixed_point(s: Seq<LightModel>, es: Seq<EditModel>)
    requires
        es.len() == s.len(),
        forall|i: int| 0 <= i < s.len() ==> echoes(s[i], #[trigger] es[i]),
        forall|i: int|
            0 <= i < s.len() ==> exists|e: EditColor| (#[trigger] s[i]).color == color_of_edit(e),
    ensures
        frame_lights(s, es, false) == s,
{
    assert forall|i: int| 0 <= i < s.len() implies light_after_edit(s[i], es[i]) == s[i] by {
        let e0 = choose|e: EditColor| s[i].color == color_of_edit(e);
        lemma_edit_quantize_identity(e0.red);
        lemma_edit_quantize_identity(e0.green);
        lemma_edit_quantize_identity(e0.blue);
        assert(edit_of_color(s[i].color) == e0);
        assert(light_after_edit(s[i], es[i]) =~= s[i]);
    }
    assert(lights_after_edits(s, es) =~= s);
    lemma_no_duplicate_intents(s, es, 0);
}

/// Apply one frame's panel report to the scene.  Returns whether a file
/// dialog must now be instantiated and presented.
pub fn sync_frame(
    store: &mut LightStore,
    session: &mut SceneSession,
    camera: &mut CameraView,
    input: &FrameInput,
) -> (open_dialog: bool)
    requires
        input.light_edits@.len() == old(store)@.lights.len(),
        old(store)@.lights.len() + input.light_edits@.len() + 1 <= usize::MAX,
    ensures
        final(store)@.lights == frame_lights(
            old(store)@.lights,
            edits_view(input.light_edits@),
            input.spawn_clicked,
        ),
        final(store)@.ambient == (AmbientLight {
            brightness: input.ambient_brightness,
            color: color_of_edit(input.ambient_color_edit),
        }),
        *final(camera) == input.camera,
        open_dialog == (input.open_clicked && old(session)@.phase == SessionPhase::Empty),
        final(session)@.phase == (if open_dialog {
            SessionPhase::DialogOpen
        } else {
            old(session)@.phase
        }),
        final(session)@.opened_file == old(session)@.opened_file,
{
    *camera = input.camera;
    store.set_ambient(input.ambient_brightness, input.ambient_color_edit);
    let ghost s0 = store@.lights;
    let ghost es = edits_view(input.light_edits@);
    let n = input.light_edits.len();

    let mut i: usize = 0;
    while i < n
        invariant
            n == input.light_edits@.len(),
            es == edits_view(input.light_edits@),
            n == s0.len(),
            i <= n,
            store@.lights.len() == n,
            forall|j: int| 0 <= j < i ==> store@.lights[j] == light_after_edit(s0[j], es[j]),
            forall|j: int| i <= j < n ==> store@.lights[j] == s0[j],
            store@.ambient == (AmbientLight {
                brightness: input.ambient_brightness,
                color: color_of_edit(input.ambient_color_edit),
            }),
        decreases n - i,
    {
        let e = &input.light_edits[i];
        store.set_edit_buffer(i, e.buffer_text.clone());
        store.commit_rename(i, e.lost_focus);
        store.set_position(i, e.position_x, e.position_y);
        store.set_intensity(i, e.intensity);
        store.set_radius(i, e.radius);
        store.set_falloff(i, e.falloff);
        store.set_color_from_edit(i, e.color_edit);
        proof {
            assert(store@.lights[i as int] == light_after_edit(s0[i as int], es[i as int]));
        }
        i += 1;
    }
    proof {
        assert(store@.lights =~= lights_after_edits(s0, es));
    }

    let ghost base = store@.lights;
    let ghost dup_target = lights_after_duplicates(base, es, 0);
    let mut i: usize = 0;
    while i < n
        invariant
            n == input.light_edits@.len(),
            es == edits_view(input.light_edits@),
            i <= n,
            n <= store@.lights.len(),
            store@.lights.len() <= n + i,
            n + n + 1 <= usize::MAX,
            lights_after_duplicates(store@.lights, es, i as int) == dup_target,
            store@.ambient == (AmbientLight {
                brightness: input.ambient_brightness,
                color: color_of_edit(input.ambient_color_edit),
            }),
        decreases n - i,
    {
        let ghost before = store@.lights;
        if input.light_edits[i].duplicate_clicked {
            store.duplicate(i);
            proof {
                assert(lights_after_duplicates(before, es, i as int)
                    == lights_after_duplicates(store@.lights, es, i as int + 1));
            }
        }
        i += 1;
    }
    proof {
        assert(store@.lights == dup_target);
    }

    if input.spawn_clicked {
        store.spawn_point_light();
    }

    if input.open_clicked {
        session.request_open()
    } else {
        false
    }
}

} // verus!
